//! How a frame is drawn into the terminal's cell buffer: windows into
//! their shares of the screen, texts row by row behind their line
//! numbers, lines span by span, spans cell by cell.

use crate::buffer::{
    area_of, buffer_area, buffer_cells, cell_count, cell_index, clear, cleared, fits, put_style,
    put_symbol, sound, CellModel,
};
use crate::frame::{
    ChildFrame, ChildRender, LineFrame, LineNumber, LineRender, SpanRender, TextFrame, TextRender,
    WindowFrame, WindowRender,
};
use crate::geometry::{lemma_intersection_within, Rect};
use crate::loading::chars_of;
use crate::primatives::{held, Char, SplitDirection};
use ratatui::buffer::Buffer;
use vstd::prelude::*;

verus! {

/// The columns kept free at the left of a text for the line numbers.
pub const GUTTER: u16 = 4;

/// The character drawn for `ch`: a line feed shows as a blank.
pub open spec fn glyph(ch: char) -> char {
    if ch == '\n' {
        ' '
    } else {
        ch
    }
}

/// The cells after a character was drawn into `area`: the cell at the
/// area's corner takes the character's style and shows its glyph. An empty
/// area, or a corner outside the buffer, leaves the cells as they are.
pub open spec fn paint_char(cells: Seq<CellModel>, bounds: Rect, area: Rect, c: Char) -> Seq<
    CellModel,
> {
    if !area.spec_is_empty() && bounds.spec_contains(area.x as int, area.y as int) {
        let i = cell_index(bounds, area.x as int, area.y as int);
        cells.update(i, cells[i].styled(c.style).showing(glyph(c.char)))
    } else {
        cells
    }
}

/// The area of the character `k` of a span drawn into `area`: one cell in
/// the area's first row, `k` columns from its left edge. There is none
/// where that cell lies outside the area.
pub open spec fn char_area(area: Rect, k: int) -> Option<Rect> {
    if area.spec_contains(area.x + k, area.y as int) {
        Some(Rect { x: (area.x + k) as u16, y: area.y, width: 1, height: area.height })
    } else {
        None
    }
}

/// The cells after the first `upto` characters of a span were drawn into
/// `area`, one cell each, from left to right.
pub open spec fn paint_span(
    cells: Seq<CellModel>,
    bounds: Rect,
    area: Rect,
    span: Seq<Char>,
    upto: int,
) -> Seq<CellModel>
    decreases upto,
{
    if upto <= 0 {
        cells
    } else {
        let prev = paint_span(cells, bounds, area, span, upto - 1);
        match char_area(area, upto - 1) {
            Some(a) => if upto - 1 < span.len() {
                paint_char(prev, bounds, a, span[upto - 1])
            } else {
                prev
            },
            None => prev,
        }
    }
}

/// The columns that a span takes in its line: one for each character, and
/// one for the cursor where it has none.
pub open spec fn span_width(span: Seq<Char>) -> nat {
    if span.len() == 0 {
        1
    } else {
        span.len()
    }
}

/// The columns that the spans take together.
pub open spec fn line_width(line: Seq<Seq<Char>>) -> nat
    decreases line.len(),
{
    if line.len() == 0 {
        0
    } else {
        line_width(line.drop_last()) + span_width(line.last())
    }
}

/// The columns that a line takes: those of its spans together, and one
/// for the cursor where it has none.
pub open spec fn row_width(line: Seq<Seq<Char>>) -> nat {
    if line.len() == 0 {
        1
    } else {
        line_width(line)
    }
}

/// The area of a span that starts `off` columns into a line drawn into
/// `area`: what is left of the line's first row from there on, as far as
/// the span is wide. There is none where that lies outside the area.
pub open spec fn span_area(area: Rect, off: nat, span: Seq<Char>) -> Option<Rect> {
    if off < area.width && area.x + off <= u16::MAX && area.height > 0 {
        Some(
            Rect {
                x: (area.x + off) as u16,
                y: area.y,
                width: if span_width(span) <= area.width - off {
                    span_width(span) as u16
                } else {
                    (area.width - off) as u16
                },
                height: 1,
            },
        )
    } else {
        None
    }
}

/// The cells after the first `upto` spans of a line were drawn into
/// `area`, each behind the one before.
pub open spec fn paint_line(
    cells: Seq<CellModel>,
    bounds: Rect,
    area: Rect,
    line: Seq<Seq<Char>>,
    upto: int,
) -> Seq<CellModel>
    decreases upto,
{
    if upto <= 0 {
        cells
    } else {
        let prev = paint_line(cells, bounds, area, line, upto - 1);
        if upto - 1 < line.len() {
            match span_area(area, line_width(line.take(upto - 1)), line[upto - 1]) {
                Some(a) => paint_span(prev, bounds, a, line[upto - 1], line[upto - 1].len() as int),
                None => prev,
            }
        } else {
            prev
        }
    }
}

/// The cells after the first `upto` digits of a line number were drawn
/// into `area`, from its corner to the right, as far as they lie in the
/// area and in the buffer. A digit changes what its cell shows and not
/// its colours.
pub open spec fn paint_label(
    cells: Seq<CellModel>,
    bounds: Rect,
    area: Rect,
    label: Seq<char>,
    upto: int,
) -> Seq<CellModel>
    decreases upto,
{
    if upto <= 0 {
        cells
    } else {
        let prev = paint_label(cells, bounds, area, label, upto - 1);
        let x = area.x + upto - 1;
        if upto - 1 < label.len() && area.spec_contains(x, area.y as int) && bounds.spec_contains(
            x,
            area.y as int,
        ) {
            let i = cell_index(bounds, x, area.y as int);
            prev.update(i, prev[i].showing(label[upto - 1]))
        } else {
            prev
        }
    }
}

/// The cells after a line number was drawn into `area`: the cells of the
/// area are reset, and the digits are drawn over them.
pub open spec fn paint_number(
    cells: Seq<CellModel>,
    bounds: Rect,
    area: Rect,
    label: Seq<char>,
) -> Seq<CellModel> {
    paint_label(
        cleared(cells, bounds, area.spec_intersection(bounds)),
        bounds,
        area,
        label,
        label.len() as int,
    )
}

/// The row `i` of a text drawn into `area`, if the area has it.
pub open spec fn row_area(area: Rect, i: int) -> Option<Rect> {
    if i < area.height && area.y + i <= u16::MAX {
        Some(Rect { x: area.x, y: (area.y + i) as u16, width: area.width, height: 1 })
    } else {
        None
    }
}

/// The part of a row kept for the line number: its first columns.
pub open spec fn gutter_area(row: Rect) -> Rect {
    Rect { width: if row.width < GUTTER { row.width } else { GUTTER }, ..row }
}

/// The part of a row that holds the line: what lies behind the gutter.
pub open spec fn content_area(row: Rect) -> Option<Rect> {
    if row.x + GUTTER <= u16::MAX {
        Some(Rect { x: (row.x + GUTTER) as u16, ..row }.spec_intersection(row))
    } else {
        None
    }
}

/// The cells after one line of a text was drawn into its row: the number
/// into the gutter, the line behind it.
pub open spec fn paint_row(cells: Seq<CellModel>, bounds: Rect, row: Rect, line: LineFrame) -> Seq<
    CellModel,
> {
    let numbered = paint_number(cells, bounds, gutter_area(row), line.label);
    match content_area(row) {
        Some(c) => paint_line(numbered, bounds, c, line.spans, line.spans.len() as int),
        None => numbered,
    }
}

/// The cells after the first `upto` lines of a text were drawn into
/// `area`, one row each, from the top.
pub open spec fn paint_text(
    cells: Seq<CellModel>,
    bounds: Rect,
    area: Rect,
    text: TextFrame,
    upto: int,
) -> Seq<CellModel>
    decreases upto,
{
    if upto <= 0 {
        cells
    } else {
        let prev = paint_text(cells, bounds, area, text, upto - 1);
        if upto - 1 < text.lines.len() {
            match row_area(area, upto - 1) {
                Some(row) => paint_row(prev, bounds, row, text.lines[upto - 1]),
                None => prev,
            }
        } else {
            prev
        }
    }
}

/// The share of `extent` that each of `n` children gets: the whole part
/// of the quotient.
pub open spec fn share(extent: u16, n: nat) -> int {
    if n == 0 {
        0
    } else {
        extent as int / n as int
    }
}

/// The area of child `i` of `n` in a window drawn into `area`. The
/// children of a horizontal split stand one below the other, those of a
/// vertical split side by side, with one free row or column between two
/// of them. There is none where its corner lies off every screen.
pub open spec fn child_area(area: Rect, dir: SplitDirection, n: nat, i: int) -> Option<Rect> {
    match dir {
        SplitDirection::Horizontal => {
            let h = share(area.height, n);
            if area.y + i * (h + 1) <= u16::MAX {
                Some(
                    Rect {
                        x: area.x,
                        y: (area.y + i * (h + 1)) as u16,
                        width: area.width,
                        height: h as u16,
                    },
                )
            } else {
                None
            }
        },
        SplitDirection::Vertical => {
            let w = share(area.width, n);
            if area.x + i * (w + 1) <= u16::MAX {
                Some(
                    Rect {
                        x: (area.x + i * (w + 1)) as u16,
                        y: area.y,
                        width: w as u16,
                        height: area.height,
                    },
                )
            } else {
                None
            }
        },
    }
}

/// The cells after the first `upto` children of a window were drawn into
/// `area`, each into its own area, in order.
pub open spec fn paint_window(
    cells: Seq<CellModel>,
    bounds: Rect,
    area: Rect,
    w: WindowFrame,
    upto: int,
) -> Seq<CellModel>
    decreases w, upto,
{
    if upto <= 0 {
        cells
    } else {
        let prev = paint_window(cells, bounds, area, w, upto - 1);
        if upto - 1 < w.children.len() {
            match child_area(area, w.split_dir, w.children.len(), upto - 1) {
                Some(a) => match w.children[upto - 1] {
                    ChildFrame::Window(c) => paint_window(
                        prev,
                        bounds,
                        a,
                        c,
                        c.children.len() as int,
                    ),
                    ChildFrame::Text(t) => paint_text(prev, bounds, a, t, t.lines.len() as int),
                },
                None => prev,
            }
        } else {
            prev
        }
    }
}

/// A position of the buffer's area has its cell among the buffer's cells.
pub proof fn lemma_cell_index_bound(bounds: Rect, x: int, y: int, len: nat)
    requires
        fits(bounds, len),
        bounds.spec_contains(x, y),
    ensures
        0 <= cell_index(bounds, x, y) < len,
{
    let dx = x - bounds.x;
    let dy = y - bounds.y;
    let w = bounds.width as int;
    let h = bounds.height as int;
    assert(0 <= dx < w);
    assert(0 <= dy < h);
    assert(dy * w + dx < h * w) by (nonlinear_arith)
        requires
            0 <= dx < w,
            0 <= dy < h,
    ;
    assert(0 <= dy * w + dx) by (nonlinear_arith)
        requires
            0 <= dx < w,
            0 <= dy < h,
    ;
    assert(h * w == w * h) by (nonlinear_arith);
}

fn glyph_of(ch: char) -> (g: char)
    ensures
        g == glyph(ch),
{
    if ch == '\n' {
        ' '
    } else {
        ch
    }
}

impl Char {
    /// Draws the character into the cell at the corner of `area`.
    pub fn render_ref(&self, area: Rect, buf: &mut Buffer)
        requires
            sound(*old(buf)),
        ensures
            sound(*final(buf)),
            buffer_area(*final(buf)) == buffer_area(*old(buf)),
            buffer_cells(*final(buf)) == paint_char(
                buffer_cells(*old(buf)),
                buffer_area(*old(buf)),
                area,
                *self,
            ),
    {
        if !area.is_empty() {
            let bounds = area_of(buf);
            if bounds.contains(area.x, area.y) {
                proof {
                    lemma_cell_index_bound(
                        bounds,
                        area.x as int,
                        area.y as int,
                        buffer_cells(*buf).len(),
                    );
                }
                put_style(buf, area.x, area.y, self.style);
                put_symbol(buf, area.x, area.y, glyph_of(self.char));
                assert(buffer_cells(*buf) =~= paint_char(
                    buffer_cells(*old(buf)),
                    buffer_area(*old(buf)),
                    area,
                    *self,
                ));
            }
        }
    }
}

impl SpanRender {
    /// The columns that the span takes: one for each character, and one
    /// for the cursor where it has none.
    pub fn width(&self) -> (w: usize)
        ensures
            w == span_width(self@),
            w >= 1,
    {
        if self.characters.len() == 0 {
            1
        } else {
            self.characters.len()
        }
    }

    /// Draws the characters into the first row of `area`, one cell each,
    /// as far as the area reaches.
    pub fn render_ref(&self, area: Rect, buf: &mut Buffer)
        requires
            sound(*old(buf)),
        ensures
            sound(*final(buf)),
            buffer_area(*final(buf)) == buffer_area(*old(buf)),
            buffer_cells(*final(buf)) == paint_span(
                buffer_cells(*old(buf)),
                buffer_area(*old(buf)),
                area,
                self@,
                self@.len() as int,
            ),
    {
        let mut k: usize = 0;
        while k < self.characters.len()
            invariant
                k <= self.characters.len(),
                sound(*buf),
                buffer_area(*buf) == buffer_area(*old(buf)),
                buffer_cells(*buf) == paint_span(
                    buffer_cells(*old(buf)),
                    buffer_area(*old(buf)),
                    area,
                    self@,
                    k as int,
                ),
            decreases self.characters.len() - k,
        {
            if k < area.width as usize {
                let x: u32 = area.x as u32 + k as u32;
                if x <= u16::MAX as u32 {
                    if area.contains(x as u16, area.y) {
                        let a = Rect { x: x as u16, y: area.y, width: 1, height: area.height };
                        self.characters[k].render_ref(a, buf);
                    }
                }
            }
            k += 1;
        }
    }
}

impl LineRender {
    /// The columns that the line takes, as far as a `usize` can hold
    /// them: those of its spans together, and one for the cursor where it
    /// has none.
    pub fn width(&self) -> (w: usize)
        ensures
            w == held(row_width(self@)),
            w >= 1,
    {
        if self.spans.len() == 0 {
            return 1;
        }
        let mut w: usize = 0;
        let mut j: usize = 0;
        assert(self@.take(0) =~= Seq::<Seq<Char>>::empty());
        while j < self.spans.len()
            invariant
                j <= self.spans.len(),
                self@.len() == self.spans@.len(),
                w == held(line_width(self@.take(j as int))),
                j > 0 ==> w >= 1,
            decreases self.spans.len() - j,
        {
            proof {
                assert(self@.take(j + 1).drop_last() =~= self@.take(j as int));
                assert(self@.take(j + 1).last() == self.spans@[j as int]@);
            }
            w = w.saturating_add(self.spans[j].width());
            j += 1;
        }
        assert(self@.take(self@.len() as int) =~= self@);
        w
    }

    /// Draws the spans into the first row of `area`, each behind the one
    /// before, as far as the area reaches.
    pub fn render_ref(&self, area: Rect, buf: &mut Buffer)
        requires
            sound(*old(buf)),
        ensures
            sound(*final(buf)),
            buffer_area(*final(buf)) == buffer_area(*old(buf)),
            buffer_cells(*final(buf)) == paint_line(
                buffer_cells(*old(buf)),
                buffer_area(*old(buf)),
                area,
                self@,
                self@.len() as int,
            ),
    {
        let mut off: usize = 0;
        let mut j: usize = 0;
        assert(self@.take(0) =~= Seq::<Seq<Char>>::empty());
        while j < self.spans.len()
            invariant
                j <= self.spans.len(),
                self@.len() == self.spans@.len(),
                off == held(line_width(self@.take(j as int))),
                sound(*buf),
                buffer_area(*buf) == buffer_area(*old(buf)),
                buffer_cells(*buf) == paint_line(
                    buffer_cells(*old(buf)),
                    buffer_area(*old(buf)),
                    area,
                    self@,
                    j as int,
                ),
            decreases self.spans.len() - j,
        {
            let width: usize = self.spans[j].width();
            proof {
                assert(self@.take(j + 1).drop_last() =~= self@.take(j as int));
                assert(self@.take(j + 1).last() == self.spans@[j as int]@);
                assert(self@[j as int] == self.spans@[j as int]@);
            }
            if off < area.width as usize && area.height > 0 {
                let x: u32 = area.x as u32 + off as u32;
                if x <= u16::MAX as u32 {
                    let room: usize = area.width as usize - off;
                    let a = Rect {
                        x: x as u16,
                        y: area.y,
                        width: if width <= room { width as u16 } else { room as u16 },
                        height: 1,
                    };
                    self.spans[j].render_ref(a, buf);
                }
            }
            off = off.saturating_add(width);
            j += 1;
        }
    }
}

impl LineNumber {
    /// Resets the cells of `area` and draws the digits over them, from the
    /// area's corner to the right, as far as the area reaches.
    pub fn render_ref(&self, area: Rect, buf: &mut Buffer)
        requires
            sound(*old(buf)),
        ensures
            sound(*final(buf)),
            buffer_area(*final(buf)) == buffer_area(*old(buf)),
            buffer_cells(*final(buf)) == paint_number(
                buffer_cells(*old(buf)),
                buffer_area(*old(buf)),
                area,
                self.label(),
            ),
    {
        let bounds = area_of(buf);
        proof {
            lemma_intersection_within(area, bounds);
        }
        clear(buf, area.intersection(bounds));
        let digits = chars_of(self.as_str());
        let ghost start = buffer_cells(*buf);
        let mut k: usize = 0;
        while k < digits.len()
            invariant
                k <= digits.len(),
                digits@ == self.label(),
                bounds == buffer_area(*old(buf)),
                buffer_area(*buf) == bounds,
                fits(bounds, start.len()),
                buffer_cells(*buf).len() == start.len(),
                buffer_cells(*buf) == paint_label(start, bounds, area, self.label(), k as int),
            decreases digits.len() - k,
        {
            if k < area.width as usize {
                let x: u32 = area.x as u32 + k as u32;
                if x <= u16::MAX as u32 {
                    if area.contains(x as u16, area.y) && bounds.contains(x as u16, area.y) {
                        proof {
                            lemma_cell_index_bound(
                                bounds,
                                x as int,
                                area.y as int,
                                buffer_cells(*buf).len(),
                            );
                        }
                        put_symbol(buf, x as u16, area.y, digits[k]);
                    }
                }
            }
            k += 1;
        }
    }
}

impl TextRender {
    /// Draws the lines into the rows of `area`, from the top: the line's
    /// number into the first columns of its row, the line behind them.
    pub fn render_ref(&self, area: Rect, buf: &mut Buffer)
        requires
            sound(*old(buf)),
        ensures
            sound(*final(buf)),
            buffer_area(*final(buf)) == buffer_area(*old(buf)),
            buffer_cells(*final(buf)) == paint_text(
                buffer_cells(*old(buf)),
                buffer_area(*old(buf)),
                area,
                self@,
                self@.lines.len() as int,
            ),
    {
        let mut i: usize = 0;
        while i < self.lines.len()
            invariant
                i <= self.lines.len(),
                self@.lines.len() == self.lines@.len(),
                sound(*buf),
                buffer_area(*buf) == buffer_area(*old(buf)),
                buffer_cells(*buf) == paint_text(
                    buffer_cells(*old(buf)),
                    buffer_area(*old(buf)),
                    area,
                    self@,
                    i as int,
                ),
            decreases self.lines.len() - i,
        {
            if i < area.height as usize {
                let y: u32 = area.y as u32 + i as u32;
                if y <= u16::MAX as u32 {
                    let row = Rect { x: area.x, y: y as u16, width: area.width, height: 1 };
                    let num_area = Rect {
                        width: if row.width < GUTTER { row.width } else { GUTTER },
                        ..row
                    };
                    self.lines[i].0.render_ref(num_area, buf);
                    if row.x <= u16::MAX - GUTTER {
                        let shifted = Rect { x: row.x + GUTTER, ..row };
                        self.lines[i].1.render_ref(shifted.intersection(row), buf);
                    }
                }
            }
            i += 1;
        }
    }
}

impl WindowRender {
    /// Draws the children into `area`, each into its share of it.
    pub fn render_ref(&self, area: Rect, buf: &mut Buffer)
        requires
            sound(*old(buf)),
        ensures
            sound(*final(buf)),
            buffer_area(*final(buf)) == buffer_area(*old(buf)),
            buffer_cells(*final(buf)) == paint_window(
                buffer_cells(*old(buf)),
                buffer_area(*old(buf)),
                area,
                self@,
                self@.children.len() as int,
            ),
        decreases self,
    {
        let n: usize = self.children.len();
        let horizontal: bool = match self.split_dir {
            SplitDirection::Horizontal => true,
            SplitDirection::Vertical => false,
        };
        let extent: u16 = if horizontal { area.height } else { area.width };
        let origin: u16 = if horizontal { area.y } else { area.x };
        let part: u16 = if n == 0 || n > extent as usize { 0 } else { extent / (n as u16) };
        assert(part == share(extent, n as nat)) by (nonlinear_arith)
            requires
                part == if n == 0 || n > extent {
                    0
                } else {
                    extent as int / n as int
                },
        {
            if n > extent {
                assert(extent as int / n as int == 0);
            }
        }
        let step: u32 = part as u32 + 1;
        let mut at: u32 = origin as u32;
        let mut i: usize = 0;
        while i < n
            invariant
                i <= n,
                n == self.children@.len(),
                n == self@.children.len(),
                horizontal == (self@.split_dir == SplitDirection::Horizontal),
                extent == if horizontal { area.height } else { area.width },
                origin == if horizontal { area.y } else { area.x },
                part == share(extent, n as nat),
                step == part + 1,
                at <= u16::MAX ==> at == origin + i * step,
                at > u16::MAX ==> origin + i * step > u16::MAX,
                at <= u16::MAX + step,
                sound(*buf),
                buffer_area(*buf) == buffer_area(*old(buf)),
                buffer_cells(*buf) == paint_window(
                    buffer_cells(*old(buf)),
                    buffer_area(*old(buf)),
                    area,
                    self@,
                    i as int,
                ),
            decreases n - i,
        {
            proof {
                assert((i + 1) * step == i * step + step) by (nonlinear_arith);
                assert(i * step >= 0) by (nonlinear_arith)
                    requires
                        i >= 0,
                        step >= 0,
                ;
            }
            if at <= u16::MAX as u32 {
                let a = if horizontal {
                    Rect { x: area.x, y: at as u16, width: area.width, height: part }
                } else {
                    Rect { x: at as u16, y: area.y, width: part, height: area.height }
                };
                assert(child_area(area, self@.split_dir, n as nat, i as int) == Some(a));
                match &self.children[i] {
                    ChildRender::Window(w) => {
                        w.render_ref(a, buf);
                    },
                    ChildRender::Text(t) => {
                        t.render_ref(a, buf);
                    },
                }
                at = at + step;
            }
            i += 1;
        }
    }
}

/// Draws a frame into `area` of the buffer, and says whether it did. A
/// buffer that does not have one cell for each position of its area is
/// left as it is.
pub fn draw(frame: &WindowRender, area: Rect, buf: &mut Buffer) -> (drawn: bool)
    ensures
        drawn == sound(*old(buf)),
        buffer_area(*final(buf)) == buffer_area(*old(buf)),
        drawn ==> buffer_cells(*final(buf)) == paint_window(
            buffer_cells(*old(buf)),
            buffer_area(*old(buf)),
            area,
            frame@,
            frame@.children.len() as int,
        ),
        !drawn ==> buffer_cells(*final(buf)) == buffer_cells(*old(buf)),
{
    let bounds = area_of(buf);
    let n: usize = cell_count(buf);
    assert(bounds.width * bounds.height <= 0xffff * 0xffff) by (nonlinear_arith)
        requires
            bounds.width <= 0xffff,
            bounds.height <= 0xffff,
    ;
    let cells: u32 = bounds.width as u32 * bounds.height as u32;
    if n <= 0x1_0000 && n as u32 == cells {
        frame.render_ref(area, buf);
        true
    } else {
        false
    }
}

/// Two positions of the buffer's area have two cells.
pub proof fn lemma_cell_index_injective(bounds: Rect, x1: int, y1: int, x2: int, y2: int)
    requires
        bounds.spec_contains(x1, y1),
        bounds.spec_contains(x2, y2),
        cell_index(bounds, x1, y1) == cell_index(bounds, x2, y2),
    ensures
        x1 == x2,
        y1 == y2,
{
    let w = bounds.width as int;
    let dx1 = x1 - bounds.x;
    let dx2 = x2 - bounds.x;
    let dy1 = y1 - bounds.y;
    let dy2 = y2 - bounds.y;
    assert(0 <= dx1 < w && 0 <= dx2 < w);
    assert(dy1 * w + dx1 == dy2 * w + dx2);
    assert(dy1 == dy2) by (nonlinear_arith)
        requires
            0 <= dx1 < w,
            0 <= dx2 < w,
            dy1 * w + dx1 == dy2 * w + dx2,
    {
        if dy1 < dy2 {
            assert(dy2 * w >= (dy1 + 1) * w);
            assert((dy1 + 1) * w == dy1 * w + w);
        } else if dy2 < dy1 {
            assert(dy1 * w >= (dy2 + 1) * w);
            assert((dy2 + 1) * w == dy2 * w + w);
        }
    }
}

/// What a span drawn into `area` leaves in each cell of the buffer: the
/// cell `k` columns from the area's corner, in its first row, takes the
/// style of the character `k` and shows its glyph, as far as the span, the
/// area and the buffer reach; every other cell stays as it was.
pub proof fn lemma_paint_span_cell(
    cells: Seq<CellModel>,
    bounds: Rect,
    area: Rect,
    span: Seq<Char>,
    upto: int,
    x: int,
    y: int,
)
    requires
        fits(bounds, cells.len()),
        bounds.spec_contains(x, y),
        0 <= upto <= span.len(),
    ensures
        paint_span(cells, bounds, area, span, upto).len() == cells.len(),
        paint_span(cells, bounds, area, span, upto)[cell_index(bounds, x, y)] == if y == area.y
            && area.x <= x < area.x + upto && area.spec_contains(x, y) {
            cells[cell_index(bounds, x, y)].styled(span[x - area.x].style).showing(
                glyph(span[x - area.x].char),
            )
        } else {
            cells[cell_index(bounds, x, y)]
        },
    decreases upto,
{
    lemma_cell_index_bound(bounds, x, y, cells.len());
    if upto > 0 {
        lemma_paint_span_cell(cells, bounds, area, span, upto - 1, x, y);
        let prev = paint_span(cells, bounds, area, span, upto - 1);
        let k = upto - 1;
        match char_area(area, k) {
            Some(a) => {
                if bounds.spec_contains(a.x as int, a.y as int) {
                    lemma_cell_index_bound(bounds, a.x as int, a.y as int, cells.len());
                    if cell_index(bounds, a.x as int, a.y as int) == cell_index(bounds, x, y) {
                        lemma_cell_index_injective(bounds, a.x as int, a.y as int, x, y);
                    }
                }
            },
            None => {},
        }
    }
}


/// The place of a cell among the cells gives its position back.
pub proof fn lemma_cell_position(bounds: Rect, x: int, y: int)
    requires
        bounds.spec_contains(x, y),
    ensures
        bounds.x + cell_index(bounds, x, y) % (bounds.width as int) == x,
        bounds.y + cell_index(bounds, x, y) / (bounds.width as int) == y,
{
    vstd::arithmetic::div_mod::lemma_fundamental_div_mod_converse(
        cell_index(bounds, x, y),
        bounds.width as int,
        y - bounds.y,
        x - bounds.x,
    );
}

/// What a reset of `area` leaves in each cell of the buffer: a blank in
/// the cells of the area, and what was there in every other cell.
pub proof fn lemma_cleared_cell(cells: Seq<CellModel>, bounds: Rect, area: Rect, x: int, y: int)
    requires
        fits(bounds, cells.len()),
        bounds.spec_contains(x, y),
    ensures
        cleared(cells, bounds, area).len() == cells.len(),
        cleared(cells, bounds, area)[cell_index(bounds, x, y)] == if area.spec_contains(x, y) {
            CellModel::blank()
        } else {
            cells[cell_index(bounds, x, y)]
        },
{
    lemma_cell_index_bound(bounds, x, y, cells.len());
    lemma_cell_position(bounds, x, y);
}

/// What the digits of a line number drawn into `area` leave in each cell
/// of the buffer: the cell `k` columns from the area's corner, in its
/// first row, shows the digit `k`, as far as the digits, the area and the
/// buffer reach; every other cell stays as it was.
pub proof fn lemma_paint_label_cell(
    cells: Seq<CellModel>,
    bounds: Rect,
    area: Rect,
    label: Seq<char>,
    upto: int,
    x: int,
    y: int,
)
    requires
        fits(bounds, cells.len()),
        bounds.spec_contains(x, y),
        0 <= upto <= label.len(),
    ensures
        paint_label(cells, bounds, area, label, upto).len() == cells.len(),
        paint_label(cells, bounds, area, label, upto)[cell_index(bounds, x, y)] == if y == area.y
            && area.x <= x < area.x + upto && area.spec_contains(x, y) {
            cells[cell_index(bounds, x, y)].showing(label[x - area.x])
        } else {
            cells[cell_index(bounds, x, y)]
        },
    decreases upto,
{
    lemma_cell_index_bound(bounds, x, y, cells.len());
    if upto > 0 {
        lemma_paint_label_cell(cells, bounds, area, label, upto - 1, x, y);
        let at = area.x + upto - 1;
        if area.spec_contains(at, area.y as int) && bounds.spec_contains(at, area.y as int) {
            lemma_cell_index_bound(bounds, at, area.y as int, cells.len());
            if cell_index(bounds, at, area.y as int) == cell_index(bounds, x, y) {
                lemma_cell_index_injective(bounds, at, area.y as int, x, y);
            }
        }
    }
}

/// A line number drawn into `area` leaves every cell outside the area as
/// it was.
pub proof fn lemma_paint_number_within(
    cells: Seq<CellModel>,
    bounds: Rect,
    area: Rect,
    label: Seq<char>,
    x: int,
    y: int,
)
    requires
        fits(bounds, cells.len()),
        bounds.spec_contains(x, y),
        !area.spec_contains(x, y),
    ensures
        paint_number(cells, bounds, area, label).len() == cells.len(),
        paint_number(cells, bounds, area, label)[cell_index(bounds, x, y)] == cells[cell_index(
            bounds,
            x,
            y,
        )],
{
    let reset = cleared(cells, bounds, area.spec_intersection(bounds));
    lemma_intersection_within(area, bounds);
    lemma_cleared_cell(cells, bounds, area.spec_intersection(bounds), x, y);
    lemma_paint_label_cell(reset, bounds, area, label, label.len() as int, x, y);
}

/// A line drawn into `area` leaves every cell outside the area as it was.
pub proof fn lemma_paint_line_within(
    cells: Seq<CellModel>,
    bounds: Rect,
    area: Rect,
    line: Seq<Seq<Char>>,
    upto: int,
    x: int,
    y: int,
)
    requires
        fits(bounds, cells.len()),
        bounds.spec_contains(x, y),
        !area.spec_contains(x, y),
    ensures
        paint_line(cells, bounds, area, line, upto).len() == cells.len(),
        paint_line(cells, bounds, area, line, upto)[cell_index(bounds, x, y)] == cells[cell_index(
            bounds,
            x,
            y,
        )],
    decreases upto,
{
    if upto > 0 {
        lemma_paint_line_within(cells, bounds, area, line, upto - 1, x, y);
        let prev = paint_line(cells, bounds, area, line, upto - 1);
        if upto - 1 < line.len() {
            match span_area(area, line_width(line.take(upto - 1)), line[upto - 1]) {
                Some(a) => {
                    assert(!a.spec_contains(x, y));
                    lemma_paint_span_cell(
                        prev,
                        bounds,
                        a,
                        line[upto - 1],
                        line[upto - 1].len() as int,
                        x,
                        y,
                    );
                },
                None => {},
            }
        }
    }
}

/// A text drawn into `area` leaves every cell outside the area as it
/// was: an empty area is left alone altogether.
pub proof fn lemma_paint_text_within(
    cells: Seq<CellModel>,
    bounds: Rect,
    area: Rect,
    text: TextFrame,
    upto: int,
    x: int,
    y: int,
)
    requires
        fits(bounds, cells.len()),
        bounds.spec_contains(x, y),
        !area.spec_contains(x, y),
    ensures
        paint_text(cells, bounds, area, text, upto).len() == cells.len(),
        paint_text(cells, bounds, area, text, upto)[cell_index(bounds, x, y)] == cells[cell_index(
            bounds,
            x,
            y,
        )],
    decreases upto,
{
    if upto > 0 {
        lemma_paint_text_within(cells, bounds, area, text, upto - 1, x, y);
        let prev = paint_text(cells, bounds, area, text, upto - 1);
        if upto - 1 < text.lines.len() {
            match row_area(area, upto - 1) {
                Some(row) => {
                    let line = text.lines[upto - 1];
                    assert(!row.spec_contains(x, y));
                    assert(!gutter_area(row).spec_contains(x, y));
                    lemma_paint_number_within(prev, bounds, gutter_area(row), line.label, x, y);
                    let numbered = paint_number(prev, bounds, gutter_area(row), line.label);
                    match content_area(row) {
                        Some(c) => {
                            lemma_intersection_within(
                                Rect { x: (row.x + GUTTER) as u16, ..row },
                                row,
                            );
                            assert(!c.spec_contains(x, y));
                            lemma_paint_line_within(
                                numbered,
                                bounds,
                                c,
                                line.spans,
                                line.spans.len() as int,
                                x,
                                y,
                            );
                        },
                        None => {},
                    }
                },
                None => {},
            }
        }
    }
}

} // verus!

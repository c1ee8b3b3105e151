//! The terminal's cell buffer, as far as the editor draws into it.
//!
//! The buffer is ratatui's. Nothing in this file is proved: it says what
//! the buffer's own operations do, and the drawing code is verified
//! against that.

use crate::geometry::Rect;
use crate::style::{Color, Style, ATTRIBUTES};
use ratatui::buffer::Buffer;
use ratatui::style::Modifier;
use ratatui::widgets::{Clear, Widget};
use vstd::prelude::*;

verus! {

/// `ratatui::buffer::Buffer`: a rectangle of the screen and one cell for
/// each of its positions, row after row.
#[verifier::external_type_specification]
#[verifier::external_body]
pub struct ExBuffer(ratatui::buffer::Buffer);

/// What the editor sees of a cell: the text it shows, its two colours and
/// its attributes.
pub ghost struct CellModel {
    pub symbol: Seq<char>,
    pub fg: Color,
    pub bg: Color,
    pub modifier: u16,
}

/// The buffer's field `area`: the rectangle of the screen that it covers.
pub uninterp spec fn buffer_area(buf: Buffer) -> Rect;

/// The buffer's field `content`: its cells, row after row.
pub uninterp spec fn buffer_cells(buf: Buffer) -> Seq<CellModel>;

impl CellModel {
    /// The cell after `Cell::reset`: a blank in the terminal's colours,
    /// without attributes.
    pub open spec fn blank() -> CellModel {
        CellModel { symbol: seq![' '], fg: Color::Reset, bg: Color::Reset, modifier: 0 }
    }

    /// The cell with a style put over it: each colour that the style names
    /// takes the place of the cell's; the attributes the style adds are
    /// switched on, and then those it takes away are switched off.
    pub open spec fn styled(self, style: Style) -> CellModel {
        CellModel {
            symbol: self.symbol,
            fg: match style.fg {
                Some(c) => c,
                None => self.fg,
            },
            bg: match style.bg {
                Some(c) => c,
                None => self.bg,
            },
            modifier: (self.modifier | (style.add_modifier & ATTRIBUTES)) & !(style.sub_modifier
                & ATTRIBUTES),
        }
    }

    /// The cell showing a single character.
    pub open spec fn showing(self, ch: char) -> CellModel {
        CellModel { symbol: seq![ch], ..self }
    }
}

/// The place of the cell `(x, y)` among the cells of a buffer that covers
/// `area`.
pub open spec fn cell_index(area: Rect, x: int, y: int) -> int {
    (y - area.y) * area.width + (x - area.x)
}

/// Whether a buffer of `len` cells that covers `area` has one cell for each
/// position, few enough for a position's place to be a `u16`.
pub open spec fn fits(area: Rect, len: nat) -> bool {
    len == area.width * area.height && len <= 0x1_0000
}

/// Whether the buffer has one cell for each position of its area.
pub open spec fn sound(buf: Buffer) -> bool {
    fits(buffer_area(buf), buffer_cells(buf).len())
}

/// The cells of a buffer that covers `bounds` after those that lie in
/// `area` were reset.
pub open spec fn cleared(cells: Seq<CellModel>, bounds: Rect, area: Rect) -> Seq<CellModel> {
    Seq::new(
        cells.len(),
        |i: int|
            if area.spec_contains(
                bounds.x + i % (bounds.width as int),
                bounds.y + i / (bounds.width as int),
            ) {
                CellModel::blank()
            } else {
                cells[i]
            },
    )
}

/// Reads the buffer's field `area`.
#[verifier::external_body]
pub(crate) fn area_of(buf: &Buffer) -> (area: Rect)
    ensures
        area == buffer_area(*buf),
{
    Rect { x: buf.area.x, y: buf.area.y, width: buf.area.width, height: buf.area.height }
}

/// Reads the length of the buffer's field `content`.
#[verifier::external_body]
pub(crate) fn cell_count(buf: &Buffer) -> (n: usize)
    ensures
        n == buffer_cells(*buf).len(),
{
    buf.content.len()
}

/// `Buffer::get_mut` and `Cell::set_symbol`: the cell at `(x, y)` shows
/// `ch`; its colours stay, and so does every other cell. `get_mut` finds
/// the cell at `cell_index` and does not return for a position outside the
/// buffer's area.
#[verifier::external_body]
pub(crate) fn put_symbol(buf: &mut Buffer, x: u16, y: u16, ch: char)
    requires
        sound(*old(buf)),
        buffer_area(*old(buf)).spec_contains(x as int, y as int),
    ensures
        buffer_area(*final(buf)) == buffer_area(*old(buf)),
        buffer_cells(*final(buf)) == buffer_cells(*old(buf)).update(
            cell_index(buffer_area(*old(buf)), x as int, y as int),
            buffer_cells(*old(buf))[cell_index(
                buffer_area(*old(buf)),
                x as int,
                y as int,
            )].showing(ch),
        ),
{
    buf.get_mut(x, y).set_symbol(&ch.to_string());
}

/// `Buffer::get_mut` and `Cell::set_style`: the style is put over the cell
/// at `(x, y)`, colours and attributes; the cell shows what it showed, and
/// every other cell stays.
#[verifier::external_body]
pub(crate) fn put_style(buf: &mut Buffer, x: u16, y: u16, style: Style)
    requires
        sound(*old(buf)),
        buffer_area(*old(buf)).spec_contains(x as int, y as int),
    ensures
        buffer_area(*final(buf)) == buffer_area(*old(buf)),
        buffer_cells(*final(buf)) == buffer_cells(*old(buf)).update(
            cell_index(buffer_area(*old(buf)), x as int, y as int),
            buffer_cells(*old(buf))[cell_index(
                buffer_area(*old(buf)),
                x as int,
                y as int,
            )].styled(style),
        ),
{
    let tone = |c: Color| match c {
        Color::Reset => ratatui::style::Color::Reset,
        Color::Black => ratatui::style::Color::Black,
        Color::White => ratatui::style::Color::White,
    };
    let look = ratatui::style::Style {
        fg: style.fg.map(tone),
        bg: style.bg.map(tone),
        add_modifier: Modifier::from_bits_truncate(style.add_modifier),
        sub_modifier: Modifier::from_bits_truncate(style.sub_modifier),
        ..Default::default()
    };
    buf.get_mut(x, y).set_style(look);
}

/// The widget `Clear`: every cell that lies in `area` is reset, and every
/// other cell stays. It does not return where `area` reaches beyond the
/// buffer.
#[verifier::external_body]
pub(crate) fn clear(buf: &mut Buffer, area: Rect)
    requires
        sound(*old(buf)),
        area.spec_within(buffer_area(*old(buf))),
    ensures
        buffer_area(*final(buf)) == buffer_area(*old(buf)),
        buffer_cells(*final(buf)) == cleared(
            buffer_cells(*old(buf)),
            buffer_area(*old(buf)),
            area,
        ),
{
    let Rect { x, y, width, height } = area;
    Clear.render(ratatui::layout::Rect { x, y, width, height }, buf);
}

} // verus!

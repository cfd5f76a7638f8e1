use vstd::prelude::*;
use crate::menu::MenuPosition;

verus! {

/// Space between two menu lines, in pixels.
pub const MENU_SPACING: i64 = 2;

/// Distance from a menu line's left edge to the selection bar, in pixels.
pub const MARKER_OFFSET: i64 = 20;

/// Width of the selection bar, in pixels.
pub const MARKER_WIDTH: u32 = 15;

/// Side of a glyph atlas, in pixels.
pub const ATLAS_SIDE: u32 = 256;

/// The widest of the sizes.
pub open spec fn max_width(sizes: Seq<(u32, u32)>) -> int
    decreases sizes.len(),
{
    if sizes.len() == 0 {
        0
    } else {
        let w = max_width(sizes.drop_last());
        if sizes.last().0 > w {
            sizes.last().0 as int
        } else {
            w
        }
    }
}

/// The sum of the heights.
pub open spec fn total_height(sizes: Seq<(u32, u32)>) -> int
    decreases sizes.len(),
{
    if sizes.len() == 0 {
        0
    } else {
        total_height(sizes.drop_last()) + sizes.last().1
    }
}

/// The top of line `i` when lines are stacked from `top` with `gap` pixels between them.
pub open spec fn line_top(sizes: Seq<(u32, u32)>, top: int, gap: int, i: int) -> int {
    top + total_height(sizes.take(i)) + gap * i
}

/// Width of the widest line and height of all lines together.
pub fn block_size(sizes: &Vec<(u32, u32)>) -> (r: (u64, u64))
    requires
        sizes.len() <= 0x1_0000,
    ensures
        r.0 == max_width(sizes@),
        r.1 == total_height(sizes@),
        r.0 <= 0xffff_ffff,
        r.1 <= sizes.len() * 0xffff_ffff,
{
    let mut w: u64 = 0;
    let mut h: u64 = 0;
    let mut i: usize = 0;
    while i < sizes.len()
        invariant
            i <= sizes.len(),
            w == max_width(sizes@.take(i as int)),
            h == total_height(sizes@.take(i as int)),
            sizes.len() <= 0x1_0000,
            h <= i * 0xffff_ffff,
            w <= 0xffff_ffff,
        decreases sizes.len() - i,
    {
        assert(sizes@.take(i + 1).drop_last() == sizes@.take(i as int));
        let (sw, sh) = sizes[i];
        if sw as u64 > w {
            w = sw as u64;
        }
        h = h + sh as u64;
        i = i + 1;
    }
    assert(sizes@.take(sizes.len() as int) == sizes@);
    (w, h)
}

/// Where each line of a block goes: from `(x, top)` down, `gap` pixels apart.
pub fn stack_lines(sizes: &Vec<(u32, u32)>, x: i64, top: i64, gap: i64) -> (r: Vec<(i64, i64)>)
    requires
        0 <= gap <= 0xffff_ffff,
        -0x4_0000_0000_0000 <= x <= 0x4_0000_0000_0000,
        -0x4_0000_0000_0000 <= top <= 0x4_0000_0000_0000,
        sizes.len() <= 0x1_0000,
    ensures
        r.len() == sizes.len(),
        forall|i: int| 0 <= i < r.len() ==> (#[trigger] r@[i]).0 == x && r@[i].1 == line_top(sizes@, top as int, gap as int, i),
{
    let mut out: Vec<(i64, i64)> = Vec::new();
    let mut y: i64 = top;
    let mut i: usize = 0;
    while i < sizes.len()
        invariant
            i <= sizes.len(),
            sizes.len() <= 0x1_0000,
            0 <= gap <= 0xffff_ffff,
            -0x4_0000_0000_0000 <= top <= 0x4_0000_0000_0000,
            out.len() == i,
            y == line_top(sizes@, top as int, gap as int, i as int),
            total_height(sizes@.take(i as int)) <= i * 0xffff_ffff,
            total_height(sizes@.take(i as int)) >= 0,
            -0x4_0000_0000_0000 <= y <= 0x4_0000_0000_0000 + i * 0x1_ffff_fffe,
            forall|j: int| 0 <= j < i ==> (#[trigger] out@[j]).0 == x && out@[j].1 == line_top(sizes@, top as int, gap as int, j),
        decreases sizes.len() - i,
    {
        assert(sizes@.take(i + 1).drop_last() == sizes@.take(i as int));
        out.push((x, y));
        assert(gap * (i + 1) == gap * i + gap) by (nonlinear_arith);
        assert(0 <= gap * i <= 0xffff_ffff * i) by (nonlinear_arith)
            requires
                0 <= gap <= 0xffff_ffff,
                0 <= i,
        ;
        y = y + sizes[i].1 as i64 + gap;
        i = i + 1;
    }
    out
}

/// `a / 2 - b / 2`, as the screens centre one length on another.
pub open spec fn centred(a: int, b: int) -> int {
    a / 2 - b / 2
}

/// Where a menu's block starts: centred in the window, or at the given point.
pub open spec fn menu_origin(window: (u32, u32), position: MenuPosition, block: (int, int)) -> (int, int) {
    match position {
        MenuPosition::Centered => (centred(window.0 as int, block.0), centred(window.1 as int, block.1)),
        MenuPosition::Pos(x, y) => (x as int, y as int),
    }
}

/// Where a menu is drawn: each item's top-left corner, the title's, and the
/// selection bar's rectangle.
pub struct MenuLayout {
    pub items: Vec<(i64, i64)>,
    pub decoration: Option<(i64, i64)>,
    pub marker: (i64, i64, u32, u32),
}

/// Lays a menu out in a window: the items (sizes `items`) are stacked 2 pixels
/// apart from the menu's origin; the title, if any, is centred across the
/// window just above them; the selection bar stands 20 pixels left of the
/// selected item, 15 pixels wide and as high as the item.
pub fn menu_layout(
    window: (u32, u32),
    position: MenuPosition,
    items: &Vec<(u32, u32)>,
    decoration: Option<(u32, u32)>,
    selected: usize,
) -> (r: MenuLayout)
    requires
        selected < items.len() <= 0x1_0000,
    ensures
        ({
            let o = menu_origin(window, position, (max_width(items@), total_height(items@)));
            &&& r.items.len() == items.len()
            &&& forall|i: int| 0 <= i < items.len() ==> (#[trigger] r.items@[i]).0 == o.0
                && r.items@[i].1 == line_top(items@, o.1, MENU_SPACING as int, i)
            &&& r.decoration == match decoration {
                Some(d) => Some((centred(window.0 as int, d.0 as int) as i64, (o.1 - d.1) as i64)),
                None => None,
            }
            &&& r.marker == (
                (o.0 - MARKER_OFFSET) as i64,
                line_top(items@, o.1, MENU_SPACING as int, selected as int) as i64,
                MARKER_WIDTH,
                items@[selected as int].1,
            )
        }),
{
    let (bw, bh) = block_size(items);
    let (x, top): (i64, i64) = match position {
        MenuPosition::Centered => ((window.0 / 2) as i64 - (bw / 2) as i64, (window.1 / 2) as i64 - (bh / 2) as i64),
        MenuPosition::Pos(px, py) => (px as i64, py as i64),
    };
    let spots = stack_lines(items, x, top, MENU_SPACING);
    let deco = match decoration {
        Some(d) => Some(((window.0 / 2) as i64 - (d.0 / 2) as i64, top - d.1 as i64)),
        None => None,
    };
    let marker = (x - MARKER_OFFSET, spots[selected].1, MARKER_WIDTH, items[selected].1);
    MenuLayout { items: spots, decoration: deco, marker }
}

/// The size of a menu with its title: the wider of the two, and their heights added.
pub fn menu_size(block: (u64, u64), decoration: Option<(u32, u32)>) -> (r: (u64, u64))
    requires
        block.1 <= 0xffff_ffff_0000_0000,
    ensures
        r == match decoration {
            Some(d) => (if block.0 >= d.0 { block.0 } else { d.0 as u64 }, (block.1 + d.1) as u64),
            None => block,
        },
{
    match decoration {
        Some(d) => (if block.0 >= d.0 as u64 { block.0 } else { d.0 as u64 }, block.1 + d.1 as u64),
        None => block,
    }
}

/// Where each line of a text screen goes: the block of lines centred in the
/// window, lines stacked with no space between them.
pub fn text_layout(window: (u32, u32), lines: &Vec<(u32, u32)>) -> (r: Vec<(i64, i64)>)
    requires
        lines.len() <= 0x1_0000,
    ensures
        r.len() == lines.len(),
        forall|i: int| 0 <= i < r.len() ==> (#[trigger] r@[i]).0 == centred(window.0 as int, max_width(lines@))
            && r@[i].1 == line_top(lines@, centred(window.1 as int, total_height(lines@)), 0, i),
{
    let (bw, bh) = block_size(lines);
    stack_lines(lines, (window.0 / 2) as i64 - (bw / 2) as i64, (window.1 / 2) as i64 - (bh / 2) as i64, 0)
}

/// Where the options screen's prompt goes: centred across the window, two
/// prompt heights below the menu, which is `menu_height` high.
pub fn prompt_position(window: (u32, u32), menu_height: u64, prompt: (u32, u32)) -> (r: (i64, i64))
    requires
        menu_height <= 0xffff_ffff_0000,
    ensures
        r.0 == centred(window.0 as int, prompt.0 as int),
        r.1 == window.1 / 2 + menu_height / 2 + 2 * prompt.1,
{
    ((window.0 / 2) as i64 - (prompt.0 / 2) as i64, (window.1 / 2) as i64 + (menu_height / 2) as i64 + 2 * prompt.1 as i64)
}

/// The largest advance and the largest height (`maxy - miny`) among glyph
/// metrics `(advance, miny, maxy)`, each at least zero.
pub open spec fn widest_glyph(metrics: Seq<(i32, i32, i32)>) -> (int, int)
    decreases metrics.len(),
{
    if metrics.len() == 0 {
        (0, 0)
    } else {
        let (w, h) = widest_glyph(metrics.drop_last());
        let m = metrics.last();
        (
            if m.0 > w { m.0 as int } else { w },
            if m.2 - m.1 > h { m.2 - m.1 } else { h },
        )
    }
}

/// The cell that holds any of the glyphs whose metrics are given.
pub fn glyph_cell_size(metrics: &Vec<(i32, i32, i32)>) -> (r: (u32, u32))
    ensures
        r.0 == widest_glyph(metrics@).0,
        r.1 == widest_glyph(metrics@).1,
{
    let mut w: u32 = 0;
    let mut h: u32 = 0;
    let mut i: usize = 0;
    while i < metrics.len()
        invariant
            i <= metrics.len(),
            w == widest_glyph(metrics@.take(i as int)).0,
            h == widest_glyph(metrics@.take(i as int)).1,
        decreases metrics.len() - i,
    {
        assert(metrics@.take(i + 1).drop_last() == metrics@.take(i as int));
        let (advance, miny, maxy) = metrics[i];
        if advance as i64 > w as i64 {
            w = advance as u32;
        }
        let tall = maxy as i64 - miny as i64;
        if tall > h as i64 {
            h = tall as u32;
        }
        i = i + 1;
    }
    assert(metrics@.take(metrics.len() as int) == metrics@);
    (w, h)
}

/// The size of a line of `chars` glyphs set in cells of `cell` pixels; its
/// width is capped at `u32::MAX`.
pub fn line_size(chars: usize, cell: (u32, u32)) -> (r: (u32, u32))
    ensures
        r.0 == if chars * cell.0 > u32::MAX { u32::MAX as int } else { chars * cell.0 },
        r.1 == cell.1,
{
    if cell.0 == 0 {
        assert(chars * cell.0 == 0) by (nonlinear_arith)
            requires
                cell.0 == 0,
        ;
        return (0, cell.1);
    }
    if chars as u64 > u32::MAX as u64 / cell.0 as u64 {
        assert(chars * cell.0 > u32::MAX) by (nonlinear_arith)
            requires
                chars as int > (u32::MAX as int) / (cell.0 as int),
                cell.0 > 0,
        ;
        (u32::MAX, cell.1)
    } else {
        assert(chars * cell.0 <= u32::MAX) by (nonlinear_arith)
            requires
                chars as int <= (u32::MAX as int) / (cell.0 as int),
                cell.0 > 0,
        ;
        ((chars as u64 * cell.0 as u64) as u32, cell.1)
    }
}

/// The cell of glyph `i` in an atlas `ATLAS_SIDE` wide, in cells of `cell` pixels
/// filled row by row.
pub open spec fn glyph_cell(i: int, cell: (u32, u32)) -> (int, int) {
    let per_row = ATLAS_SIDE as int / cell.0 as int;
    ((i % per_row) * cell.0, (i / per_row) * cell.1)
}

/// The top-left corner of each of `n` glyph cells of `cell` pixels in an atlas
/// `ATLAS_SIDE` wide: left to right, and a new row when the next would not fit.
pub fn glyph_cells(n: usize, cell: (u32, u32)) -> (r: Vec<(u32, u32)>)
    requires
        0 < cell.0 <= ATLAS_SIDE,
        cell.1 <= 0x1000,
        n <= 0x1_0000,
    ensures
        r.len() == n,
        forall|i: int| 0 <= i < n ==> (#[trigger] r@[i]).0 == glyph_cell(i, cell).0 && r@[i].1 == glyph_cell(i, cell).1,
{
    let per_row: u32 = ATLAS_SIDE / cell.0;
    assert(per_row >= 1) by (nonlinear_arith)
        requires
            per_row == ATLAS_SIDE / cell.0,
            0 < cell.0 <= ATLAS_SIDE,
    ;
    let mut out: Vec<(u32, u32)> = Vec::new();
    let mut col: u32 = 0;
    let mut row: u32 = 0;
    let mut i: usize = 0;
    while i < n
        invariant
            i <= n,
            n <= 0x1_0000,
            0 < cell.0 <= ATLAS_SIDE,
            cell.1 <= 0x1000,
            per_row == ATLAS_SIDE / cell.0,
            per_row >= 1,
            col < per_row,
            row as int == i as int / per_row as int,
            col as int == i as int % per_row as int,
            out.len() == i,
            forall|j: int| 0 <= j < i ==> (#[trigger] out@[j]).0 == glyph_cell(j, cell).0 && out@[j].1 == glyph_cell(j, cell).1,
        decreases n - i,
    {
        proof {
            assert(col * cell.0 <= ATLAS_SIDE) by (nonlinear_arith)
                requires
                    col < per_row,
                    per_row == ATLAS_SIDE / cell.0,
                    0 < cell.0,
            ;
            assert(row <= i) by (nonlinear_arith)
                requires
                    row as int == i as int / per_row as int,
                    per_row >= 1,
                    i >= 0,
            ;
            assert(row * cell.1 <= 0x1_0000 * 0x1000) by (nonlinear_arith)
                requires
                    row <= 0x1_0000,
                    cell.1 <= 0x1000,
            ;
        }
        out.push((col * cell.0, row * cell.1));
        proof {
            assert((i as int + 1) / per_row as int == if col + 1 == per_row { row + 1 } else { row as int }
                && (i as int + 1) % per_row as int == if col + 1 == per_row { 0 } else { col + 1 }) by (nonlinear_arith)
                requires
                    row as int == i as int / per_row as int,
                    col as int == i as int % per_row as int,
                    col < per_row,
                    per_row >= 1,
                    i >= 0,
            ;
        }
        if col + 1 == per_row {
            col = 0;
            row = row + 1;
        } else {
            col = col + 1;
        }
        i = i + 1;
    }
    out
}

} // verus!

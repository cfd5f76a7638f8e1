use hungry_pixel::layout::{
    block_size, glyph_cell_size, glyph_cells, line_size, menu_layout, menu_size, prompt_position, text_layout,
};
use hungry_pixel::menu::MenuPosition;

#[test]
fn centred_menu_layout() {
    let items = vec![(100, 14), (60, 14), (80, 14)];
    let l = menu_layout((1024, 768), MenuPosition::Centered, &items, Some((120, 24)), 1);
    assert_eq!(l.items, vec![(462, 363), (462, 379), (462, 395)]);
    assert_eq!(l.decoration, Some((452, 339)));
    assert_eq!(l.marker, (442, 379, 15, 14));
}

#[test]
fn placed_menu_layout() {
    let items = vec![(10, 5), (10, 7)];
    let l = menu_layout((1024, 768), MenuPosition::Pos(30, 40), &items, None, 0);
    assert_eq!(l.items, vec![(30, 40), (30, 47)]);
    assert_eq!(l.decoration, None);
    assert_eq!(l.marker, (10, 40, 15, 5));
}

#[test]
fn block_and_menu_sizes() {
    assert_eq!(block_size(&vec![(3, 4), (9, 1), (2, 2)]), (9, 7));
    assert_eq!(block_size(&vec![]), (0, 0));
    assert_eq!(menu_size((9, 7), Some((12, 3))), (12, 10));
    assert_eq!(menu_size((9, 7), None), (9, 7));
}

#[test]
fn text_screen_layout_is_centred() {
    let lines = vec![(200, 24), (100, 24)];
    assert_eq!(text_layout((1024, 768), &lines), vec![(412, 360), (412, 384)]);
}

#[test]
fn prompt_goes_below_menu() {
    assert_eq!(prompt_position((1024, 768), 100, (136, 14)), (444, 462));
}

#[test]
fn glyph_atlas_rows() {
    assert_eq!(glyph_cell_size(&vec![(10, -2, 12), (14, 0, 9), (-3, 5, 1)]), (14, 14));
    let cells = glyph_cells(20, (30, 16));
    assert_eq!(cells[0], (0, 0));
    assert_eq!(cells[7], (210, 0));
    assert_eq!(cells[8], (0, 16));
    assert_eq!(cells[19], (90, 32));
}

#[test]
fn line_sizes() {
    assert_eq!(line_size(12, (14, 16)), (168, 16));
    assert_eq!(line_size(0, (14, 16)), (0, 16));
    assert_eq!(line_size(usize::MAX, (14, 16)), (u32::MAX, 16));
}

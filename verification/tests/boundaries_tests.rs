use boundaries::boundaries::Boundaries;
use boundaries::boundaries::PaneRect;
use boundaries::boundaries::PositionAndSize;
use boundaries::glyph::Glyph;
use boundaries::theme::InputMode;
use boundaries::theme::Palette;
use boundaries::theme::PaletteColor;

fn region(x: usize, y: usize, rows: usize, cols: usize) -> PositionAndSize {
    PositionAndSize { x, y, rows, cols }
}

fn pane(x: usize, y: usize, rows: usize, cols: usize) -> PaneRect {
    PaneRect { x, y, rows, cols, invisible_borders: false }
}

fn test_palette() -> Palette {
    Palette {
        green: PaletteColor::EightBit(154),
        orange: PaletteColor::EightBit(166),
    }
}

fn glyph_at(b: &Boundaries, x: usize, y: usize) -> Glyph {
    b.symbol_at(x, y).unwrap().boundary_type
}

#[test]
fn clipped_pane_contributes_nothing() {
    let mut b = Boundaries::new(&region(0, 0, 10, 10));
    // sticks out to the right and bottom
    b.add_rect(&pane(8, 8, 5, 5), InputMode::Normal, None);
    // sticks out to the left of the region
    let mut shifted = Boundaries::new(&region(2, 0, 10, 10));
    shifted.add_rect(&pane(1, 0, 5, 5), InputMode::Normal, None);
    // sticks out above the region
    let mut below = Boundaries::new(&region(0, 3, 10, 10));
    below.add_rect(&pane(0, 2, 5, 5), InputMode::Normal, None);
    assert_eq!(b.cell_count(), 0);
    assert_eq!(shifted.cell_count(), 0);
    assert_eq!(below.cell_count(), 0);
    assert_eq!(b.vte_output(), "");
}

#[test]
fn interior_pane_draws_full_border_box() {
    let mut b = Boundaries::new(&region(0, 0, 10, 10));
    b.add_rect(&pane(2, 2, 3, 3), InputMode::Normal, None);
    assert_eq!(b.cell_count(), 12);
    // the four corners
    assert_eq!(glyph_at(&b, 1, 1), Glyph::TopLeft);
    assert_eq!(glyph_at(&b, 4, 1), Glyph::TopRight);
    assert_eq!(glyph_at(&b, 1, 4), Glyph::BottomLeft);
    assert_eq!(glyph_at(&b, 4, 4), Glyph::BottomRight);
    // straight runs between them
    for v in 2..4 {
        assert_eq!(glyph_at(&b, 1, v), Glyph::Vertical);
        assert_eq!(glyph_at(&b, 4, v), Glyph::Vertical);
        assert_eq!(glyph_at(&b, v, 1), Glyph::Horizontal);
        assert_eq!(glyph_at(&b, v, 4), Glyph::Horizontal);
    }
    // all uncolored, all visible
    for (x, y) in [(1, 1), (4, 1), (1, 4), (4, 4), (2, 1), (1, 2), (4, 2), (2, 4)] {
        let s = b.symbol_at(x, y).unwrap();
        assert_eq!(s.color, None);
        assert!(!s.invisible);
    }
    // nothing inside or outside the box
    assert!(b.symbol_at(0, 0).is_none());
    assert!(b.symbol_at(2, 2).is_none());
    assert!(b.symbol_at(5, 5).is_none());
}

#[test]
fn shared_divider_resolves_to_vertical() {
    let mut b = Boundaries::new(&region(0, 0, 5, 10));
    b.add_rect(&pane(0, 0, 5, 5), InputMode::Normal, None);
    b.add_rect(&pane(5, 0, 5, 5), InputMode::Normal, None);
    assert_eq!(b.cell_count(), 5);
    for y in 0..5 {
        assert_eq!(glyph_at(&b, 4, y), Glyph::Vertical);
    }
}

#[test]
fn left_edge_skipped_at_region_left_column() {
    let mut b = Boundaries::new(&region(0, 0, 10, 10));
    b.add_rect(&pane(0, 2, 3, 3), InputMode::Normal, None);
    // only the top row, right column and bottom row remain
    assert_eq!(b.cell_count(), 8);
    for (x, y) in [(0, 1), (1, 1), (2, 1), (2, 2), (2, 3), (2, 4), (0, 4), (1, 4)] {
        assert!(b.symbol_at(x, y).is_some());
    }
    assert!(b.symbol_at(0, 2).is_none());
    assert!(b.symbol_at(0, 3).is_none());
}

#[test]
fn left_edge_top_row_degrades_to_vertical() {
    let mut b = Boundaries::new(&region(0, 0, 10, 10));
    b.add_rect(&pane(2, 0, 3, 3), InputMode::Normal, None);
    assert_eq!(glyph_at(&b, 1, 0), Glyph::Vertical);
}

#[test]
fn border_color_follows_mode_and_ingestion_order() {
    let green = PaletteColor::EightBit(154);
    let orange = PaletteColor::EightBit(166);
    // resting mode takes the green tone
    let mut b = Boundaries::new(&region(0, 0, 5, 10));
    b.add_rect(&pane(0, 0, 5, 5), InputMode::Normal, Some(test_palette()));
    b.add_rect(&pane(5, 0, 5, 5), InputMode::Normal, None);
    assert_eq!(b.symbol_at(4, 0).unwrap().color, Some(green));
    // the colored pane keeps its tone even when it arrives second
    let mut b = Boundaries::new(&region(0, 0, 5, 10));
    b.add_rect(&pane(0, 0, 5, 5), InputMode::Normal, None);
    b.add_rect(&pane(5, 0, 5, 5), InputMode::Normal, Some(test_palette()));
    assert_eq!(b.symbol_at(4, 0).unwrap().color, Some(green));
    // when both panes are colored, the first one ingested wins
    let mut b = Boundaries::new(&region(0, 0, 5, 10));
    b.add_rect(&pane(0, 0, 5, 5), InputMode::Resize, Some(test_palette()));
    b.add_rect(&pane(5, 0, 5, 5), InputMode::Normal, Some(test_palette()));
    assert_eq!(b.symbol_at(4, 0).unwrap().color, Some(orange));
    // a mode that captures input takes the pending-input tone
    let mut b = Boundaries::new(&region(0, 0, 5, 10));
    b.add_rect(&pane(0, 0, 5, 5), InputMode::Locked, Some(test_palette()));
    assert_eq!(b.symbol_at(4, 0).unwrap().color, Some(green));
    let mut b = Boundaries::new(&region(0, 0, 5, 10));
    b.add_rect(&pane(0, 0, 5, 5), InputMode::Scroll, Some(test_palette()));
    assert_eq!(b.symbol_at(4, 0).unwrap().color, Some(orange));
}

#[test]
fn invisible_pane_renders_blank_styled_cells() {
    let mut b = Boundaries::new(&region(0, 0, 10, 10));
    let mut invisible_pane = pane(2, 2, 3, 3);
    invisible_pane.invisible_borders = true;
    b.add_rect(&invisible_pane, InputMode::Normal, Some(test_palette()));
    assert_eq!(b.cell_count(), 12);
    let s = b.symbol_at(1, 1).unwrap();
    assert!(s.invisible);
    // the glyph shape is still computed underneath
    assert_eq!(s.boundary_type, Glyph::TopLeft);
    let out = b.vte_output();
    // every cell is a cursor move plus a blank, never a styled glyph
    assert!(out.contains("\u{1b}[2;2H\u{1b}[m "));
    assert!(!out.contains("38;"));
    assert!(!out.contains("┌"));
}

#[test]
fn invisible_pane_merges_with_visible_neighbor() {
    let mut b = Boundaries::new(&region(0, 0, 5, 10));
    let mut ghost_pane = pane(0, 0, 5, 5);
    ghost_pane.invisible_borders = true;
    b.add_rect(&ghost_pane, InputMode::Normal, None);
    b.add_rect(&pane(5, 0, 5, 5), InputMode::Normal, None);
    // the shared divider stays blank: invisibility dominates the merge
    let s = b.symbol_at(4, 0).unwrap();
    assert!(s.invisible);
    assert_eq!(s.boundary_type, Glyph::Vertical);
}

#[test]
fn vte_output_exact_stream() {
    let mut b = Boundaries::new(&region(0, 0, 3, 3));
    b.add_rect(&pane(1, 1, 2, 2), InputMode::Normal, None);
    assert_eq!(
        b.vte_output(),
        "\u{1b}[1;1H\u{1b}[m┼\u{1b}[2;1H\u{1b}[m│\u{1b}[3;1H\u{1b}[m│\u{1b}[1;2H\u{1b}[m─\u{1b}[1;3H\u{1b}[m─"
    );
}

#[test]
fn vte_output_styled_cell() {
    let mut b = Boundaries::new(&region(0, 0, 10, 10));
    b.add_rect(&pane(2, 2, 3, 3), InputMode::Normal, Some(test_palette()));
    let out = b.vte_output();
    assert!(out.contains("\u{1b}[2;2H\u{1b}[m\u{1b}[38;5;154m┌\u{1b}[0m"));
}

#[test]
fn full_region_pane_contributes_nothing() {
    let mut b = Boundaries::new(&region(0, 0, 10, 10));
    b.add_rect(&pane(0, 0, 10, 10), InputMode::Normal, Some(test_palette()));
    assert_eq!(b.cell_count(), 0);
}

#[test]
fn pane_touching_bottom_right_trims_outer_corners() {
    let mut b = Boundaries::new(&region(0, 0, 10, 10));
    b.add_rect(&pane(5, 5, 5, 5), InputMode::Normal, None);
    assert_eq!(b.cell_count(), 11);
    assert_eq!(glyph_at(&b, 4, 4), Glyph::TopLeft);
    // the run ends on the region's last row and column: no corner there
    assert_eq!(glyph_at(&b, 4, 9), Glyph::Vertical);
    assert_eq!(glyph_at(&b, 9, 4), Glyph::Horizontal);
    assert_eq!(glyph_at(&b, 4, 6), Glyph::Vertical);
    assert_eq!(glyph_at(&b, 6, 4), Glyph::Horizontal);
}

#[test]
fn region_with_nonzero_origin() {
    let mut b = Boundaries::new(&region(2, 1, 8, 8));
    b.add_rect(&pane(4, 3, 2, 2), InputMode::Normal, None);
    assert_eq!(b.cell_count(), 8);
    assert_eq!(glyph_at(&b, 3, 2), Glyph::TopLeft);
    assert_eq!(glyph_at(&b, 5, 2), Glyph::TopRight);
    assert_eq!(glyph_at(&b, 3, 4), Glyph::BottomLeft);
    assert_eq!(glyph_at(&b, 5, 4), Glyph::BottomRight);
    assert_eq!(glyph_at(&b, 3, 3), Glyph::Vertical);
    assert_eq!(glyph_at(&b, 5, 3), Glyph::Vertical);
    assert_eq!(glyph_at(&b, 4, 2), Glyph::Horizontal);
    assert_eq!(glyph_at(&b, 4, 4), Glyph::Horizontal);
}

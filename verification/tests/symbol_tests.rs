use boundaries::glyph::Glyph;
use boundaries::symbol::BoundarySymbol;
use boundaries::symbol::GRAY;
use boundaries::symbol::combine_symbols;
use boundaries::theme::PaletteColor;

fn plain(g: Glyph) -> BoundarySymbol {
    let mut s = BoundarySymbol::new(g);
    s.color(None)
}

fn colored(g: Glyph, c: PaletteColor) -> BoundarySymbol {
    let mut s = BoundarySymbol::new(g);
    s.color(Some(c))
}

#[test]
fn new_symbol_defaults() {
    let s = BoundarySymbol::new(Glyph::Vertical);
    assert_eq!(s.boundary_type, Glyph::Vertical);
    assert!(!s.invisible);
    assert_eq!(s.color, Some(PaletteColor::EightBit(GRAY)));
}

#[test]
fn invisible_builder_marks_symbol() {
    let s = BoundarySymbol::new(Glyph::Horizontal).invisible();
    assert!(s.invisible);
    assert_eq!(s.boundary_type, Glyph::Horizontal);
}

#[test]
fn color_builder_replaces_color() {
    let s = colored(Glyph::Cross, PaletteColor::Rgb(1, 2, 3));
    assert_eq!(s.color, Some(PaletteColor::Rgb(1, 2, 3)));
    let s = plain(Glyph::Cross);
    assert_eq!(s.color, None);
}

#[test]
fn combine_merges_glyphs() {
    let a = plain(Glyph::TopRight);
    let b = plain(Glyph::Vertical);
    let c = combine_symbols(a, b).unwrap();
    assert_eq!(c.boundary_type, Glyph::VerticalLeft);
    assert!(!c.invisible);
    assert_eq!(c.color, None);
}

#[test]
fn combine_color_current_wins_when_both_colored() {
    let green = PaletteColor::EightBit(154);
    let orange = PaletteColor::EightBit(166);
    let a = colored(Glyph::Vertical, green);
    let b = colored(Glyph::Horizontal, orange);
    assert_eq!(combine_symbols(a, b).unwrap().color, Some(green));
    assert_eq!(combine_symbols(b, a).unwrap().color, Some(orange));
}

#[test]
fn combine_colored_side_wins_over_colorless() {
    let green = PaletteColor::EightBit(154);
    let a = colored(Glyph::Vertical, green);
    let b = plain(Glyph::Horizontal);
    assert_eq!(combine_symbols(a, b).unwrap().color, Some(green));
    assert_eq!(combine_symbols(b, a).unwrap().color, Some(green));
}

#[test]
fn combine_invisible_side_dominates() {
    let a = plain(Glyph::Vertical).invisible();
    let b = plain(Glyph::Horizontal);
    assert!(combine_symbols(a, b).unwrap().invisible);
    assert!(combine_symbols(b, a).unwrap().invisible);
    assert!(combine_symbols(a, a).unwrap().invisible);
    assert!(!combine_symbols(b, b).unwrap().invisible);
}

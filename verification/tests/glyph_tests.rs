use boundaries::glyph::Glyph;

fn all_glyphs() -> Vec<Glyph> {
    vec![
        Glyph::TopLeft,
        Glyph::TopRight,
        Glyph::BottomLeft,
        Glyph::BottomRight,
        Glyph::Horizontal,
        Glyph::Vertical,
        Glyph::VerticalLeft,
        Glyph::VerticalRight,
        Glyph::HorizontalDown,
        Glyph::HorizontalUp,
        Glyph::Cross,
    ]
}

fn side_count(g: Glyph) -> usize {
    let d = g.directions();
    let mut n = 0;
    if d.north {
        n += 1;
    }
    if d.south {
        n += 1;
    }
    if d.east {
        n += 1;
    }
    if d.west {
        n += 1;
    }
    n
}

#[test]
fn merge_commutative_all_pairs() {
    for a in all_glyphs() {
        for b in all_glyphs() {
            assert_eq!(a.merge(b), b.merge(a));
        }
    }
}

#[test]
fn merge_idempotent_all_glyphs() {
    for a in all_glyphs() {
        assert_eq!(a.merge(a), a);
    }
}

#[test]
fn merge_total_and_nontrivial_all_pairs() {
    for a in all_glyphs() {
        for b in all_glyphs() {
            let merged = a.merge(b);
            assert!(all_glyphs().contains(&merged));
            assert!(side_count(merged) >= 2);
        }
    }
}

#[test]
fn merge_corner_with_vertical_gives_junction() {
    assert_eq!(Glyph::TopRight.merge(Glyph::Vertical), Glyph::VerticalLeft);
}

#[test]
fn merge_pairwise_table_spot_checks() {
    assert_eq!(Glyph::TopRight.merge(Glyph::BottomRight), Glyph::VerticalLeft);
    assert_eq!(Glyph::TopRight.merge(Glyph::Horizontal), Glyph::HorizontalDown);
    assert_eq!(Glyph::TopRight.merge(Glyph::TopLeft), Glyph::HorizontalDown);
    assert_eq!(Glyph::TopRight.merge(Glyph::BottomLeft), Glyph::Cross);
    assert_eq!(Glyph::Horizontal.merge(Glyph::Vertical), Glyph::Cross);
    assert_eq!(Glyph::Horizontal.merge(Glyph::TopLeft), Glyph::HorizontalDown);
    assert_eq!(Glyph::Horizontal.merge(Glyph::BottomRight), Glyph::HorizontalUp);
    assert_eq!(Glyph::Vertical.merge(Glyph::TopLeft), Glyph::VerticalRight);
    assert_eq!(Glyph::Vertical.merge(Glyph::BottomRight), Glyph::VerticalLeft);
    assert_eq!(Glyph::TopLeft.merge(Glyph::BottomRight), Glyph::Cross);
    assert_eq!(Glyph::TopLeft.merge(Glyph::BottomLeft), Glyph::VerticalRight);
    assert_eq!(Glyph::BottomRight.merge(Glyph::BottomLeft), Glyph::HorizontalUp);
    assert_eq!(Glyph::BottomLeft.merge(Glyph::VerticalRight), Glyph::VerticalRight);
    assert_eq!(Glyph::VerticalLeft.merge(Glyph::VerticalRight), Glyph::Cross);
    assert_eq!(Glyph::HorizontalDown.merge(Glyph::HorizontalUp), Glyph::Cross);
    assert_eq!(Glyph::Cross.merge(Glyph::Horizontal), Glyph::Cross);
}

use vstd::prelude::*;

verus! {

/// The eleven box-drawing shapes a boundary cell can display: four corners,
/// two straight segments, four T-junctions and the four-way cross.
#[derive(Clone, Copy, PartialEq, Eq, Structural, Debug)]
pub enum Glyph {
    TopLeft,
    TopRight,
    BottomLeft,
    BottomRight,
    Horizontal,
    Vertical,
    VerticalLeft,
    VerticalRight,
    HorizontalDown,
    HorizontalUp,
    Cross,
}

/// Which of the four cardinal sides of a cell a glyph's strokes touch.
#[derive(Clone, Copy, PartialEq, Eq, Structural, Debug)]
pub struct Directions {
    pub north: bool,
    pub south: bool,
    pub east: bool,
    pub west: bool,
}

/// The direction subset of each glyph. A corner touches the two sides it
/// opens towards, a straight segment its two ends, a T-junction three sides
/// and the cross all four.
pub open spec fn directions_of(g: Glyph) -> Directions {
    match g {
        Glyph::TopLeft => Directions { north: false, south: true, east: true, west: false },
        Glyph::TopRight => Directions { north: false, south: true, east: false, west: true },
        Glyph::BottomLeft => Directions { north: true, south: false, east: true, west: false },
        Glyph::BottomRight => Directions { north: true, south: false, east: false, west: true },
        Glyph::Horizontal => Directions { north: false, south: false, east: true, west: true },
        Glyph::Vertical => Directions { north: true, south: true, east: false, west: false },
        Glyph::VerticalLeft => Directions { north: true, south: true, east: false, west: true },
        Glyph::VerticalRight => Directions { north: true, south: true, east: true, west: false },
        Glyph::HorizontalDown => Directions { north: false, south: true, east: true, west: true },
        Glyph::HorizontalUp => Directions { north: true, south: false, east: true, west: true },
        Glyph::Cross => Directions { north: true, south: true, east: true, west: true },
    }
}

/// How many of the four sides a direction subset contains.
pub open spec fn direction_count(d: Directions) -> int {
    (if d.north { 1int } else { 0int }) + (if d.south { 1int } else { 0int })
        + (if d.east { 1int } else { 0int }) + (if d.west { 1int } else { 0int })
}

/// The sides touched by either of two subsets.
pub open spec fn direction_union(a: Directions, b: Directions) -> Directions {
    Directions {
        north: a.north || b.north,
        south: a.south || b.south,
        east: a.east || b.east,
        west: a.west || b.west,
    }
}

/// The unique glyph whose strokes touch exactly the given sides, for every
/// subset of two or more sides.
pub open spec fn glyph_from_directions(d: Directions) -> Glyph {
    match (d.north, d.south, d.east, d.west) {
        (true, true, true, true) => Glyph::Cross,
        (true, true, true, false) => Glyph::VerticalRight,
        (true, true, false, true) => Glyph::VerticalLeft,
        (true, false, true, true) => Glyph::HorizontalUp,
        (false, true, true, true) => Glyph::HorizontalDown,
        (true, true, false, false) => Glyph::Vertical,
        (false, false, true, true) => Glyph::Horizontal,
        (true, false, true, false) => Glyph::BottomLeft,
        (true, false, false, true) => Glyph::BottomRight,
        (false, true, true, false) => Glyph::TopLeft,
        (false, true, false, true) => Glyph::TopRight,
        (_, _, _, _) => Glyph::Cross,
    }
}

/// Merging two glyphs keeps every stroke of both: the union of their
/// direction subsets, mapped back to its glyph.
pub open spec fn spec_merge(a: Glyph, b: Glyph) -> Glyph {
    glyph_from_directions(direction_union(directions_of(a), directions_of(b)))
}

impl Glyph {
    /// The direction subset this glyph's strokes touch.
    pub fn directions(self) -> (d: Directions)
        ensures
            d == directions_of(self),
    {
        match self {
            Glyph::TopLeft => Directions { north: false, south: true, east: true, west: false },
            Glyph::TopRight => Directions { north: false, south: true, east: false, west: true },
            Glyph::BottomLeft => Directions { north: true, south: false, east: true, west: false },
            Glyph::BottomRight => Directions { north: true, south: false, east: false, west: true },
            Glyph::Horizontal => Directions { north: false, south: false, east: true, west: true },
            Glyph::Vertical => Directions { north: true, south: true, east: false, west: false },
            Glyph::VerticalLeft => Directions { north: true, south: true, east: false, west: true },
            Glyph::VerticalRight => Directions { north: true, south: true, east: true, west: false },
            Glyph::HorizontalDown => Directions { north: false, south: true, east: true, west: true },
            Glyph::HorizontalUp => Directions { north: true, south: false, east: true, west: true },
            Glyph::Cross => Directions { north: true, south: true, east: true, west: true },
        }
    }

    /// The glyph that shows the strokes of both inputs.
    pub fn merge(self, other: Glyph) -> (r: Glyph)
        ensures
            r == spec_merge(self, other),
    {
        let a = self.directions();
        let b = other.directions();
        glyph_of_union(direction_union_exec(a, b))
    }
}

/// The sides touched by either of two subsets.
pub fn direction_union_exec(a: Directions, b: Directions) -> (r: Directions)
    ensures
        r == direction_union(a, b),
{
    Directions {
        north: a.north || b.north,
        south: a.south || b.south,
        east: a.east || b.east,
        west: a.west || b.west,
    }
}

/// Maps a subset of at least two sides back to its glyph.
fn glyph_of_union(d: Directions) -> (g: Glyph)
    requires
        direction_count(d) >= 2,
    ensures
        g == glyph_from_directions(d),
{
    if d.north && d.south && d.east && d.west {
        Glyph::Cross
    } else if d.north && d.south && d.east {
        Glyph::VerticalRight
    } else if d.north && d.south && d.west {
        Glyph::VerticalLeft
    } else if d.north && d.east && d.west {
        Glyph::HorizontalUp
    } else if d.south && d.east && d.west {
        Glyph::HorizontalDown
    } else if d.north && d.south {
        Glyph::Vertical
    } else if d.east && d.west {
        Glyph::Horizontal
    } else if d.north && d.east {
        Glyph::BottomLeft
    } else if d.north && d.west {
        Glyph::BottomRight
    } else if d.south && d.east {
        Glyph::TopLeft
    } else {
        Glyph::TopRight
    }
}

/// Every glyph's strokes touch at least two sides.
pub proof fn lemma_directions_nontrivial(g: Glyph)
    ensures
        direction_count(directions_of(g)) >= 2,
{
}

/// The merge of two glyphs does not depend on their order.
pub proof fn lemma_merge_commutative(a: Glyph, b: Glyph)
    ensures
        spec_merge(a, b) == spec_merge(b, a),
{
}

/// Merging a glyph with itself changes nothing.
pub proof fn lemma_merge_idempotent(a: Glyph)
    ensures
        spec_merge(a, a) == a,
{
}

/// The merge of any two glyphs is the glyph of exactly the union of their
/// direction subsets, which again touches at least two sides: the algebra
/// is total over the eleven glyphs and never yields a trivial shape.
pub proof fn lemma_merge_closed(a: Glyph, b: Glyph)
    ensures
        directions_of(spec_merge(a, b)) == direction_union(directions_of(a), directions_of(b)),
        direction_count(directions_of(spec_merge(a, b))) >= 2,
{
}

} // verus!

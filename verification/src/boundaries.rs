use vstd::prelude::*;

use crate::Coordinates;
use crate::glyph::Glyph;
use crate::symbol::BoundarySymbol;
use crate::symbol::combine_symbols;
use crate::symbol::spec_combine;
use crate::theme::InputMode;
use crate::theme::Palette;
use crate::theme::PaletteColor;
use crate::theme::border_color;
use crate::theme::select_border_color;
use crate::decimal::dec_digits;
use crate::decimal::usize_to_decimal;
use crate::render::render_symbol;

verus! {

/// The absolute screen rectangle that pane contributions are clipped
/// against.
#[derive(Clone, Copy, PartialEq, Eq, Structural, Debug)]
pub struct PositionAndSize {
    pub x: usize,
    pub y: usize,
    pub rows: usize,
    pub cols: usize,
}

/// One pane's absolute geometry, together with its invisible-borders flag.
#[derive(Clone, Copy, PartialEq, Eq, Structural, Debug)]
pub struct PaneRect {
    pub x: usize,
    pub y: usize,
    pub rows: usize,
    pub cols: usize,
    pub invisible_borders: bool,
}

/// The region's bounds can be computed without overflowing.
pub open spec fn region_fits(region: PositionAndSize) -> bool {
    &&& region.x + region.cols <= usize::MAX
    &&& region.y + region.rows <= usize::MAX
}

/// The pane's bounds can be computed without overflowing.
pub open spec fn rect_fits(rect: PaneRect) -> bool {
    &&& rect.x + rect.cols <= usize::MAX
    &&& rect.y + rect.rows <= usize::MAX
}

impl PaneRect {
    pub fn x(&self) -> (r: usize)
        ensures
            r == self.x,
    {
        self.x
    }

    pub fn y(&self) -> (r: usize)
        ensures
            r == self.y,
    {
        self.y
    }

    pub fn rows(&self) -> (r: usize)
        ensures
            r == self.rows,
    {
        self.rows
    }

    pub fn cols(&self) -> (r: usize)
        ensures
            r == self.cols,
    {
        self.cols
    }

    /// The first column to the right of the pane.
    pub fn right_boundary_x_coords(&self) -> (r: usize)
        requires
            self.x + self.cols <= usize::MAX,
        ensures
            r == self.x + self.cols,
    {
        self.x + self.cols
    }

    /// The first row below the pane.
    pub fn bottom_boundary_y_coords(&self) -> (r: usize)
        requires
            self.y + self.rows <= usize::MAX,
        ensures
            r == self.y + self.rows,
    {
        self.y + self.rows
    }

    pub fn invisible_borders(&self) -> (r: bool)
        ensures
            r == self.invisible_borders,
    {
        self.invisible_borders
    }
}

/// No coordinate occurs twice among the stored entries.
pub open spec fn keys_unique(s: Seq<(Coordinates, BoundarySymbol)>) -> bool {
    forall|i: int, j: int|
        0 <= i < j < s.len() ==> (#[trigger] s[i]).0 != (#[trigger] s[j]).0
}

/// The mapping the stored entries represent.
pub open spec fn map_of(s: Seq<(Coordinates, BoundarySymbol)>) -> Map<Coordinates, BoundarySymbol>
    decreases s.len(),
{
    if s.len() == 0 {
        Map::empty()
    } else {
        map_of(s.drop_last()).insert(s.last().0, s.last().1)
    }
}

/// A coordinate held by no entry is not in the mapping.
proof fn lemma_map_of_absent(s: Seq<(Coordinates, BoundarySymbol)>, c: Coordinates)
    requires
        forall|j: int| 0 <= j < s.len() ==> (#[trigger] s[j]).0 != c,
    ensures
        !map_of(s).contains_key(c),
    decreases s.len(),
{
    if s.len() > 0 {
        lemma_map_of_absent(s.drop_last(), c);
    }
}

/// Every entry's coordinate is in the mapping, bound to that entry's symbol.
proof fn lemma_map_of_present(s: Seq<(Coordinates, BoundarySymbol)>, i: int)
    requires
        keys_unique(s),
        0 <= i < s.len(),
    ensures
        map_of(s).contains_key(s[i].0),
        map_of(s)[s[i].0] == s[i].1,
    decreases s.len(),
{
    if i < s.len() - 1 {
        assert(keys_unique(s.drop_last()));
        lemma_map_of_present(s.drop_last(), i);
        assert(s.last().0 != s[i].0);
    }
}

/// Replacing one entry's symbol updates exactly that coordinate.
proof fn lemma_map_of_update(s: Seq<(Coordinates, BoundarySymbol)>, i: int, v: BoundarySymbol)
    requires
        keys_unique(s),
        0 <= i < s.len(),
    ensures
        keys_unique(s.update(i, (s[i].0, v))),
        map_of(s.update(i, (s[i].0, v))) == map_of(s).insert(s[i].0, v),
    decreases s.len(),
{
    let t = s.update(i, (s[i].0, v));
    assert(forall|j: int| 0 <= j < s.len() ==> (#[trigger] t[j]).0 == s[j].0);
    if i == s.len() - 1 {
        assert(t.drop_last() =~= s.drop_last());
        assert(map_of(t) =~= map_of(s).insert(s[i].0, v));
    } else {
        assert(keys_unique(s.drop_last()));
        lemma_map_of_update(s.drop_last(), i, v);
        assert(t.drop_last() =~= s.drop_last().update(i, (s[i].0, v)));
        assert(t.last() == s.last());
        assert(s.last().0 != s[i].0);
        assert(map_of(t) =~= map_of(s).insert(s[i].0, v));
    }
}

/// Appending an entry with a fresh coordinate inserts it into the mapping.
proof fn lemma_map_of_push(s: Seq<(Coordinates, BoundarySymbol)>, c: Coordinates, v: BoundarySymbol)
    requires
        keys_unique(s),
        forall|j: int| 0 <= j < s.len() ==> (#[trigger] s[j]).0 != c,
    ensures
        keys_unique(s.push((c, v))),
        map_of(s.push((c, v))) == map_of(s).insert(c, v),
{
    let t = s.push((c, v));
    assert(t.drop_last() =~= s);
    assert(forall|j: int| 0 <= j < s.len() ==> t[j] == s[j]);
    assert(map_of(t) == map_of(s).insert(c, v));
}

/// The mapping of unique entries has exactly one key per entry.
proof fn lemma_map_of_len(s: Seq<(Coordinates, BoundarySymbol)>)
    requires
        keys_unique(s),
    ensures
        map_of(s).dom().finite(),
        map_of(s).dom().len() == s.len(),
    decreases s.len(),
{
    if s.len() > 0 {
        assert(keys_unique(s.drop_last()));
        lemma_map_of_len(s.drop_last());
        assert(forall|j: int|
            0 <= j < s.len() - 1 ==> (#[trigger] s.drop_last()[j]).0 != s.last().0);
        lemma_map_of_absent(s.drop_last(), s.last().0);
    }
}

/// One step of the coordinate index: a fresh coordinate stores the incoming
/// symbol verbatim, an occupied one stores the combination of the stored
/// (current) symbol with the incoming one.
pub open spec fn upsert_map(
    m: Map<Coordinates, BoundarySymbol>,
    c: Coordinates,
    s: BoundarySymbol,
) -> Map<Coordinates, BoundarySymbol> {
    if m.contains_key(c) {
        m.insert(c, spec_combine(m[c], s))
    } else {
        m.insert(c, s)
    }
}

/// A whole run of contributions applied in order.
pub open spec fn upsert_all(
    m: Map<Coordinates, BoundarySymbol>,
    entries: Seq<(Coordinates, BoundarySymbol)>,
) -> Map<Coordinates, BoundarySymbol>
    decreases entries.len(),
{
    if entries.len() == 0 {
        m
    } else {
        upsert_map(upsert_all(m, entries.drop_last()), entries.last().0, entries.last().1)
    }
}

/// Contributions can be applied run by run.
pub proof fn lemma_upsert_all_concat(
    m: Map<Coordinates, BoundarySymbol>,
    a: Seq<(Coordinates, BoundarySymbol)>,
    b: Seq<(Coordinates, BoundarySymbol)>,
)
    ensures
        upsert_all(m, a + b) == upsert_all(upsert_all(m, a), b),
    decreases b.len(),
{
    if b.len() == 0 {
        assert(a + b =~= a);
    } else {
        assert((a + b).drop_last() =~= a + b.drop_last());
        assert((a + b).last() == b.last());
        lemma_upsert_all_concat(m, a, b.drop_last());
    }
}

/// Contributions can be applied one at a time.
pub proof fn lemma_upsert_all_step(
    m: Map<Coordinates, BoundarySymbol>,
    s: Seq<(Coordinates, BoundarySymbol)>,
    i: int,
)
    requires
        0 <= i < s.len(),
    ensures
        upsert_all(m, s.take(i + 1)) == upsert_map(upsert_all(m, s.take(i)), s[i].0, s[i].1),
{
    assert(s.take(i + 1).drop_last() =~= s.take(i));
    assert(s.take(i + 1).last() == s[i]);
}

/// The boundary state of one render pass: the screen region and the
/// coordinate index, one symbol per populated cell.
pub struct Boundaries {
    pub position_and_size: PositionAndSize,
    pub boundary_characters: Vec<(Coordinates, BoundarySymbol)>,
}

impl Boundaries {
    /// The coordinate index as a mapping.
    pub open spec fn chars(self) -> Map<Coordinates, BoundarySymbol> {
        map_of(self.boundary_characters@)
    }

    /// Well-formed state: unique coordinates, a region whose bounds fit the
    /// machine, and stored coordinates that leave room for the one-based
    /// positions the serializer writes.
    pub open spec fn wf(self) -> bool {
        &&& keys_unique(self.boundary_characters@)
        &&& region_fits(self.position_and_size)
        &&& forall|i: int|
            0 <= i < self.boundary_characters@.len() ==> (#[trigger] self.boundary_characters@[i]).0.x
                < usize::MAX && self.boundary_characters@[i].0.y < usize::MAX
    }

    /// A fresh, empty boundary state for one render pass.
    pub fn new(position_and_size: &PositionAndSize) -> (r: Self)
        requires
            region_fits(*position_and_size),
        ensures
            r.wf(),
            r.position_and_size == *position_and_size,
            r.chars() == Map::<Coordinates, BoundarySymbol>::empty(),
    {
        Boundaries { position_and_size: *position_and_size, boundary_characters: Vec::new() }
    }

    /// Inserts or combines one contribution, exactly as `upsert_map` states.
    #[verifier::loop_isolation(false)]
    fn upsert(&mut self, coordinates: Coordinates, symbol: BoundarySymbol)
        requires
            old(self).wf(),
            coordinates.x < usize::MAX,
            coordinates.y < usize::MAX,
        ensures
            final(self).wf(),
            final(self).position_and_size == old(self).position_and_size,
            final(self).chars() == upsert_map(old(self).chars(), coordinates, symbol),
    {
        let n = self.boundary_characters.len();
        let mut i: usize = 0;
        while i < n
            invariant
                n == self.boundary_characters.len(),
                *self == *old(self),
                i <= n,
                forall|j: int| 0 <= j < i ==> (#[trigger] self.boundary_characters@[j]).0
                    != coordinates,
            decreases n - i,
        {
            if self.boundary_characters[i].0 == coordinates {
                let current_symbol = self.boundary_characters[i].1;
                let next_symbol = match combine_symbols(current_symbol, symbol) {
                    Some(s) => s,
                    None => symbol,
                };
                self.boundary_characters.set(i, (coordinates, next_symbol));
                proof {
                    lemma_map_of_present(old(self).boundary_characters@, i as int);
                    lemma_map_of_update(old(self).boundary_characters@, i as int, next_symbol);
                }
                return ;
            }
            i += 1;
        }
        self.boundary_characters.push((coordinates, symbol));
        proof {
            lemma_map_of_absent(old(self).boundary_characters@, coordinates);
            lemma_map_of_push(old(self).boundary_characters@, coordinates, symbol);
        }
    }

    /// The stored symbol at a cell, if any.
    #[verifier::loop_isolation(false)]
    pub fn symbol_at(&self, x: usize, y: usize) -> (r: Option<BoundarySymbol>)
        requires
            self.wf(),
        ensures
            self.chars().contains_key((Coordinates { x, y })) ==> r == Some(
                self.chars()[(Coordinates { x, y })],
            ),
            !self.chars().contains_key((Coordinates { x, y })) ==> r.is_none(),
    {
        let target = Coordinates::new(x, y);
        let n = self.boundary_characters.len();
        let mut i: usize = 0;
        while i < n
            invariant
                n == self.boundary_characters.len(),
                i <= n,
                self.wf(),
                target == (Coordinates { x, y }),
                forall|j: int| 0 <= j < i ==> (#[trigger] self.boundary_characters@[j]).0 != target,
            decreases n - i,
        {
            if self.boundary_characters[i].0 == target {
                proof {
                    lemma_map_of_present(self.boundary_characters@, i as int);
                }
                return Some(self.boundary_characters[i].1);
            }
            i += 1;
        }
        proof {
            lemma_map_of_absent(self.boundary_characters@, target);
        }
        None
    }

    /// How many cells the index holds.
    pub fn cell_count(&self) -> (n: usize)
        requires
            self.wf(),
        ensures
            n == self.chars().dom().len(),
    {
        proof {
            lemma_map_of_len(self.boundary_characters@);
        }
        self.boundary_characters.len()
    }
}

/// A pane lies fully inside the region.
pub open spec fn contained(region: PositionAndSize, rect: PaneRect) -> bool {
    &&& rect.x >= region.x
    &&& rect.x + rect.cols <= region.x + region.cols
    &&& rect.y >= region.y
    &&& rect.y + rect.rows <= region.y + region.rows
}

/// There is room for a boundary column left of the pane.
pub open spec fn left_active(region: PositionAndSize, rect: PaneRect) -> bool {
    rect.x > region.x
}

/// There is room for a boundary row above the pane.
pub open spec fn top_active(region: PositionAndSize, rect: PaneRect) -> bool {
    rect.y > region.y
}

/// The pane's right boundary falls strictly before the region's right edge,
/// and a screen column exists for it.
pub open spec fn right_active(region: PositionAndSize, rect: PaneRect) -> bool {
    &&& rect.x + rect.cols < region.x + region.cols
    &&& rect.x + rect.cols >= 1
}

/// The pane's bottom boundary falls strictly before the region's bottom
/// edge, and a screen row exists for it.
pub open spec fn bottom_active(region: PositionAndSize, rect: PaneRect) -> bool {
    &&& rect.y + rect.rows < region.y + region.rows
    &&& rect.y + rect.rows >= 1
}

/// The first row of a vertical boundary run: one row above the pane, unless
/// the pane touches the region's top row.
pub open spec fn row_start(region: PositionAndSize, rect: PaneRect) -> int {
    if rect.y > region.y {
        rect.y - 1
    } else {
        region.y as int
    }
}

/// One past the last row of a vertical boundary run.
pub open spec fn row_end(rect: PaneRect) -> int {
    rect.y + rect.rows
}

/// The first column of a horizontal boundary run: one column left of the
/// pane, unless the pane starts at the screen's first column.
pub open spec fn col_start(rect: PaneRect) -> int {
    if rect.x == 0 {
        0
    } else {
        rect.x - 1
    }
}

/// One past the last column of a horizontal boundary run.
pub open spec fn col_end(rect: PaneRect) -> int {
    rect.x + rect.cols
}

/// The shape at one row of a vertical run: a corner at either end, degraded
/// to a straight segment where the run touches the region's top or bottom
/// row, and a straight segment in between.
pub open spec fn vertical_run_glyph(
    region: PositionAndSize,
    rect: PaneRect,
    row: int,
    top_corner: Glyph,
    bottom_corner: Glyph,
) -> Glyph {
    if row == row_start(region, rect) && row != region.y {
        top_corner
    } else if row == row_end(rect) - 1 && row != region.y + region.rows - 1 {
        bottom_corner
    } else {
        Glyph::Vertical
    }
}

/// The shape at one column of a horizontal run: a corner at either end,
/// degraded to a straight segment at the region's leftmost or rightmost
/// column, and a straight segment in between.
pub open spec fn horizontal_run_glyph(
    region: PositionAndSize,
    rect: PaneRect,
    col: int,
    left_corner: Glyph,
    right_corner: Glyph,
) -> Glyph {
    if col == col_start(rect) && col != region.x {
        left_corner
    } else if col == col_end(rect) - 1 && col != region.x + region.cols - 1 {
        right_corner
    } else {
        Glyph::Horizontal
    }
}

/// A contributed symbol: the shape, the pane's chosen color, and the pane's
/// invisibility.
pub open spec fn make_symbol(g: Glyph, color: Option<PaletteColor>, invisible: bool) -> BoundarySymbol {
    BoundarySymbol { boundary_type: g, invisible, color }
}

/// The length of a half-open span.
pub open spec fn span_len(start: int, end: int) -> nat {
    if end >= start {
        (end - start) as nat
    } else {
        0
    }
}

/// The cells a pane contributes along its left boundary column.
pub open spec fn left_edge_seq(
    region: PositionAndSize,
    rect: PaneRect,
    color: Option<PaletteColor>,
    invisible: bool,
) -> Seq<(Coordinates, BoundarySymbol)> {
    if left_active(region, rect) {
        Seq::new(
            span_len(row_start(region, rect), row_end(rect)),
            |i: int|
                (
                    Coordinates { x: (rect.x - 1) as usize, y: (row_start(region, rect) + i) as usize },
                    make_symbol(
                        vertical_run_glyph(
                            region,
                            rect,
                            row_start(region, rect) + i,
                            Glyph::TopLeft,
                            Glyph::BottomLeft,
                        ),
                        color,
                        invisible,
                    ),
                ),
        )
    } else {
        Seq::empty()
    }
}

/// The cells a pane contributes along its top boundary row.
pub open spec fn top_edge_seq(
    region: PositionAndSize,
    rect: PaneRect,
    color: Option<PaletteColor>,
    invisible: bool,
) -> Seq<(Coordinates, BoundarySymbol)> {
    if top_active(region, rect) {
        Seq::new(
            span_len(col_start(rect), col_end(rect)),
            |i: int|
                (
                    Coordinates { x: (col_start(rect) + i) as usize, y: (rect.y - 1) as usize },
                    make_symbol(
                        horizontal_run_glyph(
                            region,
                            rect,
                            col_start(rect) + i,
                            Glyph::TopLeft,
                            Glyph::TopRight,
                        ),
                        color,
                        invisible,
                    ),
                ),
        )
    } else {
        Seq::empty()
    }
}

/// The cells a pane contributes along its right boundary column.
pub open spec fn right_edge_seq(
    region: PositionAndSize,
    rect: PaneRect,
    color: Option<PaletteColor>,
    invisible: bool,
) -> Seq<(Coordinates, BoundarySymbol)> {
    if right_active(region, rect) {
        Seq::new(
            span_len(row_start(region, rect), row_end(rect)),
            |i: int|
                (
                    Coordinates {
                        x: (rect.x + rect.cols - 1) as usize,
                        y: (row_start(region, rect) + i) as usize,
                    },
                    make_symbol(
                        vertical_run_glyph(
                            region,
                            rect,
                            row_start(region, rect) + i,
                            Glyph::TopRight,
                            Glyph::BottomRight,
                        ),
                        color,
                        invisible,
                    ),
                ),
        )
    } else {
        Seq::empty()
    }
}

/// The cells a pane contributes along its bottom boundary row.
pub open spec fn bottom_edge_seq(
    region: PositionAndSize,
    rect: PaneRect,
    color: Option<PaletteColor>,
    invisible: bool,
) -> Seq<(Coordinates, BoundarySymbol)> {
    if bottom_active(region, rect) {
        Seq::new(
            span_len(col_start(rect), col_end(rect)),
            |i: int|
                (
                    Coordinates {
                        x: (col_start(rect) + i) as usize,
                        y: (rect.y + rect.rows - 1) as usize,
                    },
                    make_symbol(
                        horizontal_run_glyph(
                            region,
                            rect,
                            col_start(rect) + i,
                            Glyph::BottomLeft,
                            Glyph::BottomRight,
                        ),
                        color,
                        invisible,
                    ),
                ),
        )
    } else {
        Seq::empty()
    }
}

/// Everything one pane contributes, in emission order: its left, top, right
/// and bottom boundary runs.
pub open spec fn contributions(
    region: PositionAndSize,
    rect: PaneRect,
    color: Option<PaletteColor>,
    invisible: bool,
) -> Seq<(Coordinates, BoundarySymbol)> {
    left_edge_seq(region, rect, color, invisible) + top_edge_seq(region, rect, color, invisible)
        + right_edge_seq(region, rect, color, invisible) + bottom_edge_seq(
        region,
        rect,
        color,
        invisible,
    )
}

/// A pane whose left edge sits at (or before) the region's left edge
/// contributes nothing along a left boundary column: there is no room for
/// one.
pub proof fn lemma_left_edge_trimmed_off(
    region: PositionAndSize,
    rect: PaneRect,
    color: Option<PaletteColor>,
    invisible: bool,
)
    requires
        rect.x <= region.x,
    ensures
        left_edge_seq(region, rect, color, invisible) == Seq::<(Coordinates, BoundarySymbol)>::empty(),
{
}

/// A pane whose top row is the region's top row still gets a left boundary
/// column, but its first cell degrades from a corner to a plain vertical
/// segment.
pub proof fn lemma_left_edge_top_degrades(
    region: PositionAndSize,
    rect: PaneRect,
    color: Option<PaletteColor>,
    invisible: bool,
)
    requires
        left_active(region, rect),
        rect.y == region.y,
        rect.rows >= 2,
    ensures
        left_edge_seq(region, rect, color, invisible).len() == rect.rows,
        left_edge_seq(region, rect, color, invisible)[0] == (
            (Coordinates { x: (rect.x - 1) as usize, y: rect.y }),
            make_symbol(Glyph::Vertical, color, invisible),
        ),
{
}

/// Builds one contribution the way a pane emits it: a fresh symbol of the
/// given shape, recolored, and forced blank when the pane's borders are
/// invisible.
fn styled(g: Glyph, color: Option<PaletteColor>, invisible: bool) -> (r: BoundarySymbol)
    ensures
        r == make_symbol(g, color, invisible),
{
    let mut symbol_to_add = BoundarySymbol::new(g);
    let mut symbol_to_add = symbol_to_add.color(color);
    if invisible {
        symbol_to_add = symbol_to_add.invisible();
    }
    symbol_to_add
}

impl Boundaries {
    /// The containment check behind the silent-drop clipping policy.
    fn is_fully_inside_screen(&self, rect: &PaneRect) -> (b: bool)
        requires
            region_fits(self.position_and_size),
            rect_fits(*rect),
        ensures
            b == contained(self.position_and_size, *rect),
    {
        rect.x() >= self.position_and_size.x && rect.x() + rect.cols() <= self.position_and_size.x
            + self.position_and_size.cols && rect.y() >= self.position_and_size.y && rect.y()
            + rect.rows() <= self.position_and_size.y + self.position_and_size.rows
    }

    /// Whether the pane's right boundary falls strictly before the region's
    /// right edge.
    fn rect_right_boundary_is_before_screen_edge(&self, rect: &PaneRect) -> (b: bool)
        requires
            region_fits(self.position_and_size),
            rect_fits(*rect),
        ensures
            b == (rect.x + rect.cols < self.position_and_size.x + self.position_and_size.cols),
    {
        rect.x() + rect.cols() < self.position_and_size.x + self.position_and_size.cols
    }

    /// Whether the pane's bottom boundary falls strictly before the region's
    /// bottom edge.
    fn rect_bottom_boundary_is_before_screen_edge(&self, rect: &PaneRect) -> (b: bool)
        requires
            region_fits(self.position_and_size),
            rect_fits(*rect),
        ensures
            b == (rect.y + rect.rows < self.position_and_size.y + self.position_and_size.rows),
    {
        rect.y() + rect.rows() < self.position_and_size.y + self.position_and_size.rows
    }

    /// The first row of the pane's vertical boundary runs.
    fn rect_right_boundary_row_start(&self, rect: &PaneRect) -> (r: usize)
        ensures
            r == row_start(self.position_and_size, *rect),
    {
        if rect.y() > self.position_and_size.y {
            rect.y() - 1
        } else {
            self.position_and_size.y
        }
    }

    /// One past the last row of the pane's vertical boundary runs.
    fn rect_right_boundary_row_end(&self, rect: &PaneRect) -> (r: usize)
        requires
            rect_fits(*rect),
        ensures
            r == row_end(*rect),
    {
        rect.y() + rect.rows()
    }

    /// The first column of the pane's horizontal boundary runs.
    fn rect_bottom_boundary_col_start(&self, rect: &PaneRect) -> (r: usize)
        ensures
            r == col_start(*rect),
    {
        if rect.x() == 0 {
            0
        } else {
            rect.x() - 1
        }
    }

    /// One past the last column of the pane's horizontal boundary runs.
    fn rect_bottom_boundary_col_end(&self, rect: &PaneRect) -> (r: usize)
        requires
            rect_fits(*rect),
        ensures
            r == col_end(*rect),
    {
        rect.x() + rect.cols()
    }

    /// Combines the pane's left boundary run into the index.
    #[verifier::loop_isolation(false)]
    #[verifier::rlimit(30)]
    fn add_left_edge(&mut self, rect: &PaneRect, color: Option<PaletteColor>)
        requires
            old(self).wf(),
            rect_fits(*rect),
            contained(old(self).position_and_size, *rect),
        ensures
            final(self).wf(),
            final(self).position_and_size == old(self).position_and_size,
            final(self).chars() == upsert_all(
                old(self).chars(),
                left_edge_seq(old(self).position_and_size, *rect, color, rect.invisible_borders),
            ),
    {
        let ghost region = self.position_and_size;
        let ghost m0 = self.chars();
        let ghost lseq = left_edge_seq(region, *rect, color, rect.invisible_borders);
        if rect.x() > self.position_and_size.x {
            let boundary_x_coords = rect.x() - 1;
            let first_row_coordinates = self.rect_right_boundary_row_start(rect);
            let last_row_coordinates = self.rect_right_boundary_row_end(rect);
            let mut row = first_row_coordinates;
            while row < last_row_coordinates
                invariant
                    first_row_coordinates <= row <= last_row_coordinates,
                    self.wf(),
                    self.position_and_size == region,
                    self.chars() == upsert_all(m0, lseq.take(row - first_row_coordinates)),
                decreases last_row_coordinates - row,
            {
                let coordinates = Coordinates::new(boundary_x_coords, row);
                let glyph = if row == first_row_coordinates && row != self.position_and_size.y {
                    Glyph::TopLeft
                } else if row == last_row_coordinates - 1 && row != self.position_and_size.y
                    + self.position_and_size.rows - 1 {
                    Glyph::BottomLeft
                } else {
                    Glyph::Vertical
                };
                let symbol_to_add = styled(glyph, color, rect.invisible_borders());
                proof {
                    assert(lseq[row - first_row_coordinates] == (coordinates, symbol_to_add));
                    lemma_upsert_all_step(m0, lseq, row - first_row_coordinates);
                }
                self.upsert(coordinates, symbol_to_add);
                row += 1;
            }
            proof {
                assert(lseq.take(lseq.len() as int) =~= lseq);
            }
        }
    }

    /// Combines the pane's top boundary run into the index.
    #[verifier::loop_isolation(false)]
    #[verifier::rlimit(30)]
    fn add_top_edge(&mut self, rect: &PaneRect, color: Option<PaletteColor>)
        requires
            old(self).wf(),
            rect_fits(*rect),
            contained(old(self).position_and_size, *rect),
        ensures
            final(self).wf(),
            final(self).position_and_size == old(self).position_and_size,
            final(self).chars() == upsert_all(
                old(self).chars(),
                top_edge_seq(old(self).position_and_size, *rect, color, rect.invisible_borders),
            ),
    {
        let ghost region = self.position_and_size;
        let ghost m0 = self.chars();
        let ghost tseq = top_edge_seq(region, *rect, color, rect.invisible_borders);
        if rect.y() > self.position_and_size.y {
            let boundary_y_coords = rect.y() - 1;
            let first_col_coordinates = self.rect_bottom_boundary_col_start(rect);
            let last_col_coordinates = self.rect_bottom_boundary_col_end(rect);
            let mut col = first_col_coordinates;
            while col < last_col_coordinates
                invariant
                    first_col_coordinates <= col <= last_col_coordinates,
                    self.wf(),
                    self.position_and_size == region,
                    self.chars() == upsert_all(m0, tseq.take(col - first_col_coordinates)),
                decreases last_col_coordinates - col,
            {
                let coordinates = Coordinates::new(col, boundary_y_coords);
                let glyph = if col == first_col_coordinates && col != self.position_and_size.x {
                    Glyph::TopLeft
                } else if col == last_col_coordinates - 1 && col != self.position_and_size.x
                    + self.position_and_size.cols - 1 {
                    Glyph::TopRight
                } else {
                    Glyph::Horizontal
                };
                let symbol_to_add = styled(glyph, color, rect.invisible_borders());
                proof {
                    assert(tseq[col - first_col_coordinates] == (coordinates, symbol_to_add));
                    lemma_upsert_all_step(m0, tseq, col - first_col_coordinates);
                }
                self.upsert(coordinates, symbol_to_add);
                col += 1;
            }
            proof {
                assert(tseq.take(tseq.len() as int) =~= tseq);
            }
        }
    }

    /// Combines the pane's right boundary run into the index.
    #[verifier::loop_isolation(false)]
    #[verifier::rlimit(30)]
    fn add_right_edge(&mut self, rect: &PaneRect, color: Option<PaletteColor>)
        requires
            old(self).wf(),
            rect_fits(*rect),
            contained(old(self).position_and_size, *rect),
        ensures
            final(self).wf(),
            final(self).position_and_size == old(self).position_and_size,
            final(self).chars() == upsert_all(
                old(self).chars(),
                right_edge_seq(old(self).position_and_size, *rect, color, rect.invisible_borders),
            ),
    {
        let ghost region = self.position_and_size;
        let ghost m0 = self.chars();
        let ghost rseq = right_edge_seq(region, *rect, color, rect.invisible_borders);
        if rect.x() + rect.cols() >= 1 && self.rect_right_boundary_is_before_screen_edge(rect) {
            let boundary_x_coords = rect.right_boundary_x_coords() - 1;
            let first_row_coordinates = self.rect_right_boundary_row_start(rect);
            let last_row_coordinates = self.rect_right_boundary_row_end(rect);
            let mut row = first_row_coordinates;
            while row < last_row_coordinates
                invariant
                    first_row_coordinates <= row <= last_row_coordinates,
                    self.wf(),
                    self.position_and_size == region,
                    self.chars() == upsert_all(m0, rseq.take(row - first_row_coordinates)),
                decreases last_row_coordinates - row,
            {
                let coordinates = Coordinates::new(boundary_x_coords, row);
                let glyph = if row == first_row_coordinates && row != self.position_and_size.y {
                    Glyph::TopRight
                } else if row == last_row_coordinates - 1 && row != self.position_and_size.y
                    + self.position_and_size.rows - 1 {
                    Glyph::BottomRight
                } else {
                    Glyph::Vertical
                };
                let symbol_to_add = styled(glyph, color, rect.invisible_borders());
                proof {
                    assert(rseq[row - first_row_coordinates] == (coordinates, symbol_to_add));
                    lemma_upsert_all_step(m0, rseq, row - first_row_coordinates);
                }
                self.upsert(coordinates, symbol_to_add);
                row += 1;
            }
            proof {
                assert(rseq.take(rseq.len() as int) =~= rseq);
            }
        }
    }

    /// Combines the pane's bottom boundary run into the index.
    #[verifier::loop_isolation(false)]
    #[verifier::rlimit(30)]
    fn add_bottom_edge(&mut self, rect: &PaneRect, color: Option<PaletteColor>)
        requires
            old(self).wf(),
            rect_fits(*rect),
            contained(old(self).position_and_size, *rect),
        ensures
            final(self).wf(),
            final(self).position_and_size == old(self).position_and_size,
            final(self).chars() == upsert_all(
                old(self).chars(),
                bottom_edge_seq(old(self).position_and_size, *rect, color, rect.invisible_borders),
            ),
    {
        let ghost region = self.position_and_size;
        let ghost m0 = self.chars();
        let ghost bseq = bottom_edge_seq(region, *rect, color, rect.invisible_borders);
        if rect.y() + rect.rows() >= 1 && self.rect_bottom_boundary_is_before_screen_edge(rect) {
            let boundary_y_coords = rect.bottom_boundary_y_coords() - 1;
            let first_col_coordinates = self.rect_bottom_boundary_col_start(rect);
            let last_col_coordinates = self.rect_bottom_boundary_col_end(rect);
            let mut col = first_col_coordinates;
            while col < last_col_coordinates
                invariant
                    first_col_coordinates <= col <= last_col_coordinates,
                    self.wf(),
                    self.position_and_size == region,
                    self.chars() == upsert_all(m0, bseq.take(col - first_col_coordinates)),
                decreases last_col_coordinates - col,
            {
                let coordinates = Coordinates::new(col, boundary_y_coords);
                let glyph = if col == first_col_coordinates && col != self.position_and_size.x {
                    Glyph::BottomLeft
                } else if col == last_col_coordinates - 1 && col != self.position_and_size.x
                    + self.position_and_size.cols - 1 {
                    Glyph::BottomRight
                } else {
                    Glyph::Horizontal
                };
                let symbol_to_add = styled(glyph, color, rect.invisible_borders());
                proof {
                    assert(bseq[col - first_col_coordinates] == (coordinates, symbol_to_add));
                    lemma_upsert_all_step(m0, bseq, col - first_col_coordinates);
                }
                self.upsert(coordinates, symbol_to_add);
                col += 1;
            }
            proof {
                assert(bseq.take(bseq.len() as int) =~= bseq);
            }
        }
    }

    /// Ingests one pane: a no-op for a pane not fully inside the region,
    /// otherwise every cell of the pane's four boundary runs is combined
    /// into the index, in emission order.
    pub fn add_rect(&mut self, rect: &PaneRect, input_mode: InputMode, palette: Option<Palette>)
        requires
            old(self).wf(),
            rect_fits(*rect),
        ensures
            final(self).wf(),
            final(self).position_and_size == old(self).position_and_size,
            !contained(old(self).position_and_size, *rect) ==> *final(self) == *old(self),
            contained(old(self).position_and_size, *rect) ==> final(self).chars() == upsert_all(
                old(self).chars(),
                contributions(
                    old(self).position_and_size,
                    *rect,
                    border_color(input_mode, palette),
                    rect.invisible_borders,
                ),
            ),
    {
        if !self.is_fully_inside_screen(rect) {
            return ;
        }
        let ghost region = self.position_and_size;
        let ghost m0 = self.chars();
        let color = select_border_color(input_mode, palette);
        let ghost inv = rect.invisible_borders;
        let ghost lseq = left_edge_seq(region, *rect, color, inv);
        let ghost tseq = top_edge_seq(region, *rect, color, inv);
        let ghost rseq = right_edge_seq(region, *rect, color, inv);
        let ghost bseq = bottom_edge_seq(region, *rect, color, inv);
        self.add_left_edge(rect, color);
        self.add_top_edge(rect, color);
        self.add_right_edge(rect, color);
        self.add_bottom_edge(rect, color);
        proof {
            lemma_upsert_all_concat(m0, lseq, tseq);
            lemma_upsert_all_concat(m0, lseq + tseq, rseq);
            lemma_upsert_all_concat(m0, lseq + tseq + rseq, bseq);
        }
    }
}

/// What one stored cell writes: an absolute one-based cursor move, an
/// attribute reset, then the symbol's own rendering.
pub open spec fn cell_output(c: Coordinates, s: BoundarySymbol) -> Seq<char> {
    seq!['\u{1b}', '['] + dec_digits((c.y + 1) as nat) + seq![';'] + dec_digits((c.x + 1) as nat)
        + seq!['H', '\u{1b}', '[', 'm'] + render_symbol(s)
}

/// The serialized form of a run of stored cells, in storage order.
pub open spec fn vte_spec(entries: Seq<(Coordinates, BoundarySymbol)>) -> Seq<char>
    decreases entries.len(),
{
    if entries.len() == 0 {
        Seq::empty()
    } else {
        vte_spec(entries.drop_last()) + cell_output(entries.last().0, entries.last().1)
    }
}

impl Boundaries {
    /// Serializes the whole index: one self-contained cursor-move plus
    /// styled-glyph write per stored cell.
    #[verifier::loop_isolation(false)]
    #[verifier::rlimit(30)]
    pub fn vte_output(&self) -> (r: String)
        requires
            self.wf(),
        ensures
            r@ == vte_spec(self.boundary_characters@),
    {
        let mut vte_output = String::new();
        let n = self.boundary_characters.len();
        let mut idx: usize = 0;
        while idx < n
            invariant
                idx <= n,
                vte_output@ == vte_spec(self.boundary_characters@.take(idx as int)),
            decreases n - idx,
        {
            let coordinates = self.boundary_characters[idx].0;
            let boundary_character = self.boundary_characters[idx].1;
            let row_text = usize_to_decimal(coordinates.y + 1);
            let col_text = usize_to_decimal(coordinates.x + 1);
            let symbol_text = boundary_character.render();
            vte_output.append("\u{1b}[");
            vte_output.append(row_text.as_str());
            vte_output.append(";");
            vte_output.append(col_text.as_str());
            vte_output.append("H\u{1b}[m");
            vte_output.append(symbol_text.as_str());
            proof {
                reveal_strlit("\u{1b}[");
                reveal_strlit(";");
                reveal_strlit("H\u{1b}[m");
                assert("\u{1b}["@ =~= seq!['\u{1b}', '[']);
                assert(";"@ =~= seq![';']);
                assert("H\u{1b}[m"@ =~= seq!['H', '\u{1b}', '[', 'm']);
                let entries = self.boundary_characters@;
                assert(entries.take(idx + 1).drop_last() =~= entries.take(idx as int));
                assert(entries.take(idx + 1).last() == entries[idx as int]);
                assert(vte_output@ =~= vte_spec(entries.take(idx + 1)));
            }
            idx += 1;
        }
        proof {
            assert(self.boundary_characters@.take(n as int) =~= self.boundary_characters@);
        }
        vte_output
    }
}

} // verus!

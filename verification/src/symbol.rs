use vstd::prelude::*;

use crate::glyph::Glyph;
use crate::glyph::spec_merge;
use crate::theme::PaletteColor;

verus! {

/// The default indexed tone a fresh symbol carries before a caller picks a
/// color.
pub const GRAY: u8 = 238;

/// One boundary cell's state: its glyph shape, whether the cell is forced
/// blank, and an optional color.
#[derive(Clone, Copy, Debug)]
pub struct BoundarySymbol {
    pub boundary_type: Glyph,
    pub invisible: bool,
    pub color: Option<PaletteColor>,
}

/// The merge of two symbols at one cell: the glyph keeps the strokes of
/// both, invisibility of either side wins, and the stored (current) side's
/// color has precedence unless it has none.
pub open spec fn spec_combine(current: BoundarySymbol, next: BoundarySymbol) -> BoundarySymbol {
    BoundarySymbol {
        boundary_type: spec_merge(current.boundary_type, next.boundary_type),
        invisible: current.invisible || next.invisible,
        color: if current.color.is_some() {
            current.color
        } else {
            next.color
        },
    }
}

impl BoundarySymbol {
    /// A fresh, visible symbol of the given shape in the default tone.
    pub fn new(boundary_type: Glyph) -> (r: Self)
        ensures
            r.boundary_type == boundary_type,
            !r.invisible,
            r.color == Some(PaletteColor::EightBit(GRAY)),
    {
        BoundarySymbol { boundary_type, invisible: false, color: Some(PaletteColor::EightBit(GRAY)) }
    }

    /// The same symbol, forced blank.
    pub fn invisible(self) -> (r: Self)
        ensures
            r.boundary_type == self.boundary_type,
            r.invisible,
            r.color == self.color,
    {
        BoundarySymbol { boundary_type: self.boundary_type, invisible: true, color: self.color }
    }

    /// Replaces the symbol's color and hands the updated symbol back.
    pub fn color(&mut self, color: Option<PaletteColor>) -> (r: Self)
        ensures
            final(self).boundary_type == old(self).boundary_type,
            final(self).invisible == old(self).invisible,
            final(self).color == color,
            r == *final(self),
    {
        self.color = color;
        *self
    }
}

/// Combines the symbol already stored at a cell with a newly contributed
/// one, exactly as `spec_combine` states. Defined for every pair.
pub fn combine_symbols(current_symbol: BoundarySymbol, next_symbol: BoundarySymbol) -> (r:
    Option<BoundarySymbol>)
    ensures
        r == Some(spec_combine(current_symbol, next_symbol)),
{
    let invisible = current_symbol.invisible || next_symbol.invisible;
    let color = if current_symbol.color.is_some() {
        current_symbol.color
    } else {
        next_symbol.color
    };
    let boundary_type = current_symbol.boundary_type.merge(next_symbol.boundary_type);
    Some(BoundarySymbol { boundary_type, invisible, color })
}

/// A symbol with a color keeps it through a combine whichever side it
/// stands on; a colorless stored symbol takes the incoming color.
pub proof fn lemma_color_precedence(current: BoundarySymbol, next: BoundarySymbol)
    ensures
        current.color.is_some() ==> spec_combine(current, next).color == current.color,
        current.color.is_none() ==> spec_combine(current, next).color == next.color,
        current.color.is_none() ==> spec_combine(next, current).color == next.color,
{
}

/// Combining an invisible symbol with any other yields an invisible
/// result, on whichever side it stands.
pub proof fn lemma_invisibility_dominant(current: BoundarySymbol, next: BoundarySymbol)
    ensures
        current.invisible ==> spec_combine(current, next).invisible,
        current.invisible ==> spec_combine(next, current).invisible,
{
}

} // verus!

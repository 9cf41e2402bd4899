use vstd::prelude::*;

verus! {

/// A terminal color: either a true-color triple or an 8-bit indexed color.
#[derive(Clone, Copy, PartialEq, Eq, Structural, Debug)]
pub enum PaletteColor {
    Rgb(u8, u8, u8),
    EightBit(u8),
}

/// The input modes the caller can be in. Border coloring only distinguishes
/// the two modes in which a pane is not capturing raw input (Normal and
/// Locked) from all the others.
#[derive(Clone, Copy, PartialEq, Eq, Structural, Debug)]
pub enum InputMode {
    Normal,
    Locked,
    Resize,
    Pane,
    Tab,
    Scroll,
    RenameTab,
}

/// The two palette tones border coloring reads: the tone of a pane at rest
/// and the tone that signals pending input.
#[derive(Clone, Copy, PartialEq, Eq, Structural, Debug)]
pub struct Palette {
    pub green: PaletteColor,
    pub orange: PaletteColor,
}

/// The border color for one pane: the palette's resting tone in Normal or
/// Locked mode, its pending-input tone in any other mode, and no color at
/// all when no palette is given.
pub open spec fn border_color(mode: InputMode, palette: Option<Palette>) -> Option<PaletteColor> {
    match palette {
        Some(p) => match mode {
            InputMode::Normal => Some(p.green),
            InputMode::Locked => Some(p.green),
            _ => Some(p.orange),
        },
        None => None,
    }
}

/// Picks the border color as `border_color` states it.
pub fn select_border_color(mode: InputMode, palette: Option<Palette>) -> (r: Option<PaletteColor>)
    ensures
        r == border_color(mode, palette),
{
    match palette {
        Some(p) => match mode {
            InputMode::Normal | InputMode::Locked => Some(p.green),
            _ => Some(p.orange),
        },
        None => None,
    }
}

} // verus!

use vstd::prelude::*;

use crate::decimal::dec_digits;
use crate::glyph::Glyph;
use crate::symbol::BoundarySymbol;
use crate::theme::PaletteColor;

verus! {

/// The character each glyph displays as.
pub open spec fn glyph_char(g: Glyph) -> char {
    match g {
        Glyph::TopLeft => '\u{250c}',
        Glyph::TopRight => '\u{2510}',
        Glyph::BottomLeft => '\u{2514}',
        Glyph::BottomRight => '\u{2518}',
        Glyph::Horizontal => '\u{2500}',
        Glyph::Vertical => '\u{2502}',
        Glyph::VerticalLeft => '\u{2524}',
        Glyph::VerticalRight => '\u{251c}',
        Glyph::HorizontalDown => '\u{252c}',
        Glyph::HorizontalUp => '\u{2534}',
        Glyph::Cross => '\u{253c}',
    }
}

/// The attribute-reset sequence that closes every styled run.
pub open spec fn style_reset() -> Seq<char> {
    seq!['\u{1b}', '[', '0', 'm']
}

/// Text wrapped in a true-color foreground sequence.
pub open spec fn rgb_styled(red: u8, green: u8, blue: u8, text: Seq<char>) -> Seq<char> {
    seq!['\u{1b}', '[', '3', '8', ';', '2', ';'] + dec_digits(red as nat) + seq![';']
        + dec_digits(green as nat) + seq![';'] + dec_digits(blue as nat) + seq!['m'] + text
        + style_reset()
}

/// Text wrapped in an indexed-color foreground sequence.
pub open spec fn fixed_styled(index: u8, text: Seq<char>) -> Seq<char> {
    seq!['\u{1b}', '[', '3', '8', ';', '5', ';'] + dec_digits(index as nat) + seq!['m'] + text
        + style_reset()
}

/// What one boundary symbol writes to the terminal: a blank when invisible,
/// otherwise its glyph, wrapped in a styling sequence when it has a color.
pub open spec fn render_symbol(s: BoundarySymbol) -> Seq<char> {
    if s.invisible {
        seq![' ']
    } else {
        match s.color {
            Some(PaletteColor::Rgb(red, green, blue)) => rgb_styled(
                red,
                green,
                blue,
                seq![glyph_char(s.boundary_type)],
            ),
            Some(PaletteColor::EightBit(index)) => fixed_styled(
                index,
                seq![glyph_char(s.boundary_type)],
            ),
            None => seq![glyph_char(s.boundary_type)],
        }
    }
}

/// Relies on ansi_term: painting text with `Colour::RGB(r, g, b)` writes the
/// prefix `ESC [ 38;2;r;g;b m`, then the text, then the reset `ESC [ 0 m`,
/// each number in plain decimal.
#[verifier::external_body]
fn paint_rgb(red: u8, green: u8, blue: u8, text: &str) -> (r: String)
    ensures
        r@ == rgb_styled(red, green, blue, text@),
{
    ansi_term::Colour::RGB(red, green, blue).paint(text).to_string()
}

/// Relies on ansi_term: painting text with `Colour::Fixed(n)` writes the
/// prefix `ESC [ 38;5;n m`, then the text, then the reset `ESC [ 0 m`, the
/// index in plain decimal.
#[verifier::external_body]
fn paint_fixed(index: u8, text: &str) -> (r: String)
    ensures
        r@ == fixed_styled(index, text@),
{
    ansi_term::Colour::Fixed(index).paint(text).to_string()
}

/// The one-character string of a glyph.
pub fn glyph_str(g: Glyph) -> (r: &'static str)
    ensures
        r@ == seq![glyph_char(g)],
{
    match g {
        Glyph::TopLeft => {
            proof {
                reveal_strlit("\u{250c}");
                assert("\u{250c}"@ =~= seq!['\u{250c}']);
            }
            "\u{250c}"
        },
        Glyph::TopRight => {
            proof {
                reveal_strlit("\u{2510}");
                assert("\u{2510}"@ =~= seq!['\u{2510}']);
            }
            "\u{2510}"
        },
        Glyph::BottomLeft => {
            proof {
                reveal_strlit("\u{2514}");
                assert("\u{2514}"@ =~= seq!['\u{2514}']);
            }
            "\u{2514}"
        },
        Glyph::BottomRight => {
            proof {
                reveal_strlit("\u{2518}");
                assert("\u{2518}"@ =~= seq!['\u{2518}']);
            }
            "\u{2518}"
        },
        Glyph::Horizontal => {
            proof {
                reveal_strlit("\u{2500}");
                assert("\u{2500}"@ =~= seq!['\u{2500}']);
            }
            "\u{2500}"
        },
        Glyph::Vertical => {
            proof {
                reveal_strlit("\u{2502}");
                assert("\u{2502}"@ =~= seq!['\u{2502}']);
            }
            "\u{2502}"
        },
        Glyph::VerticalLeft => {
            proof {
                reveal_strlit("\u{2524}");
                assert("\u{2524}"@ =~= seq!['\u{2524}']);
            }
            "\u{2524}"
        },
        Glyph::VerticalRight => {
            proof {
                reveal_strlit("\u{251c}");
                assert("\u{251c}"@ =~= seq!['\u{251c}']);
            }
            "\u{251c}"
        },
        Glyph::HorizontalDown => {
            proof {
                reveal_strlit("\u{252c}");
                assert("\u{252c}"@ =~= seq!['\u{252c}']);
            }
            "\u{252c}"
        },
        Glyph::HorizontalUp => {
            proof {
                reveal_strlit("\u{2534}");
                assert("\u{2534}"@ =~= seq!['\u{2534}']);
            }
            "\u{2534}"
        },
        Glyph::Cross => {
            proof {
                reveal_strlit("\u{253c}");
                assert("\u{253c}"@ =~= seq!['\u{253c}']);
            }
            "\u{253c}"
        },
    }
}

impl BoundarySymbol {
    /// What this symbol writes to the terminal, exactly as `render_symbol`
    /// states it.
    pub fn render(&self) -> (r: String)
        ensures
            r@ == render_symbol(*self),
    {
        if self.invisible {
            proof {
                reveal_strlit(" ");
                assert(" "@ =~= seq![' ']);
            }
            String::from_str(" ")
        } else {
            match self.color {
                Some(PaletteColor::Rgb(red, green, blue)) => paint_rgb(
                    red,
                    green,
                    blue,
                    glyph_str(self.boundary_type),
                ),
                Some(PaletteColor::EightBit(index)) => paint_fixed(
                    index,
                    glyph_str(self.boundary_type),
                ),
                None => String::from_str(glyph_str(self.boundary_type)),
            }
        }
    }
}

} // verus!

//! Colors and the rotating three-tone background mosaic.

use vstd::prelude::*;

verus! {

/// A terminal color. The variants cover exactly the palette the views use;
/// `Rgb` carries a true-color triple.
#[derive(Debug, Copy, Clone, PartialEq, Eq, Structural)]
pub enum Color {
    Cyan,
    LightCyan,
    Yellow,
    LightYellow,
    Red,
    LightRed,
    Green,
    LightGreen,
    LightMagenta,
    Rgb(u8, u8, u8),
}

/// The phase of the rotating background: one of the three cyclic
/// permutations of the palette.
#[derive(Debug, Copy, Clone, PartialEq, Eq, Structural)]
pub enum Background {
    First,
    Second,
    Third,
}

impl Background {
    /// The warm orange tone of the palette.
    pub fn pastel_orange() -> (c: Color)
        ensures
            c == Color::Rgb(255, 184, 108),
    {
        Color::Rgb(255, 184, 108)
    }

    /// The light blue tone of the palette.
    pub fn electric() -> (c: Color)
        ensures
            c == Color::Rgb(139, 233, 253),
    {
        Color::Rgb(139, 233, 253)
    }

    /// The pink tone of the palette.
    pub fn pastel_pink() -> (c: Color)
        ensures
            c == Color::Rgb(255, 121, 198),
    {
        Color::Rgb(255, 121, 198)
    }

    /// The palette in the order this background phase presents it:
    /// each phase is the previous one rotated left by one.
    pub open spec fn colors_spec(self) -> Seq<Color> {
        match self {
            Background::First => seq![
                Color::Rgb(255, 184, 108),
                Color::Rgb(139, 233, 253),
                Color::Rgb(255, 121, 198),
            ],
            Background::Second => seq![
                Color::Rgb(139, 233, 253),
                Color::Rgb(255, 121, 198),
                Color::Rgb(255, 184, 108),
            ],
            Background::Third => seq![
                Color::Rgb(255, 121, 198),
                Color::Rgb(255, 184, 108),
                Color::Rgb(139, 233, 253),
            ],
        }
    }

    /// The three palette colors in this phase's order.
    pub fn colors(self) -> (r: Vec<Color>)
        ensures
            r@ == self.colors_spec(),
    {
        let r = match self {
            Background::First => vec![
                Background::pastel_orange(),
                Background::electric(),
                Background::pastel_pink(),
            ],
            Background::Second => vec![
                Background::electric(),
                Background::pastel_pink(),
                Background::pastel_orange(),
            ],
            Background::Third => vec![
                Background::pastel_pink(),
                Background::pastel_orange(),
                Background::electric(),
            ],
        };
        r
    }

    /// The next phase in the rotation.
    pub open spec fn next_spec(self) -> Background {
        match self {
            Background::First => Background::Second,
            Background::Second => Background::Third,
            Background::Third => Background::First,
        }
    }

    /// Advance the rotation by one step.
    pub fn next(self) -> (r: Background)
        ensures
            r == self.next_spec(),
    {
        match self {
            Background::First => Background::Second,
            Background::Second => Background::Third,
            Background::Third => Background::First,
        }
    }

    /// The color of one cell of the 3x3 background mosaic: cell `(row, col)`
    /// shows palette entry `(row + col) % 3`, so each row is the palette
    /// shifted once more than the row above it.
    pub fn mosaic_color(self, row: usize, col: usize) -> (c: Color)
        requires
            row < 3,
            col < 3,
        ensures
            c == self.colors_spec()[((row + col) % 3) as int],
    {
        let colors = self.colors();
        colors[(row + col) % 3]
    }
}

impl Default for Background {
    /// The rotation starts at the first phase.
    fn default() -> (r: Self)
        ensures
            r == Background::First,
    {
        Background::First
    }
}

} // verus!

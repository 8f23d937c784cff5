//! Named colours and their exact RGBA channel values.
use vstd::prelude::*;

verus! {

/// A colour: one of the named presets, or explicit 8-bit RGBA channels.
#[derive(Debug, Clone, Copy, PartialEq, Eq, Structural)]
pub enum Colors {
    Red,
    Green,
    Blue,
    Yellow,
    Black,
    White,
    Gray,
    Purple,
    Pink,
    Brown,
    Orange,
    Magenta,
    Cyan,
    Custom(u8, u8, u8, u8),
}

/// A channel value in `[0, 1]`, written as `numerator / denominator`.
pub type Fraction = (u8, u8);

pub open spec fn frac(n: u8, d: u8) -> Fraction {
    (n, d)
}

impl Colors {
    /// The RGBA channels of each colour, red first, as exact fractions.
    pub open spec fn fractions(self) -> Seq<Fraction> {
        match self {
            Colors::Red => seq![frac(1, 1), frac(0, 1), frac(0, 1), frac(1, 1)],
            Colors::Green => seq![frac(0, 1), frac(1, 1), frac(0, 1), frac(1, 1)],
            Colors::Blue => seq![frac(0, 1), frac(0, 1), frac(1, 1), frac(1, 1)],
            Colors::Yellow => seq![frac(1, 1), frac(1, 1), frac(0, 1), frac(1, 1)],
            Colors::Black => seq![frac(0, 1), frac(0, 1), frac(0, 1), frac(1, 1)],
            Colors::White => seq![frac(1, 1), frac(1, 1), frac(1, 1), frac(1, 1)],
            Colors::Gray => seq![frac(1, 2), frac(1, 2), frac(1, 2), frac(1, 1)],
            Colors::Purple => seq![frac(1, 2), frac(0, 1), frac(1, 2), frac(1, 1)],
            Colors::Pink => seq![frac(1, 1), frac(0, 1), frac(1, 1), frac(1, 1)],
            Colors::Brown => seq![frac(6, 10), frac(3, 10), frac(1, 10), frac(1, 1)],
            Colors::Orange => seq![frac(1, 1), frac(1, 2), frac(0, 1), frac(1, 1)],
            Colors::Magenta => seq![frac(1, 1), frac(0, 1), frac(1, 1), frac(1, 1)],
            Colors::Cyan => seq![frac(0, 1), frac(1, 1), frac(1, 1), frac(1, 1)],
            Colors::Custom(r, g, b, a) => seq![
                frac(r, 255),
                frac(g, 255),
                frac(b, 255),
                frac(a, 255),
            ],
        }
    }

    /// The colour's red, green, blue and alpha channels, each as a fraction
    /// `numerator / denominator` in `[0, 1]`; a custom channel byte `c` is
    /// `c / 255`.
    pub fn as_fractions(&self) -> (r: [Fraction; 4])
        ensures
            r@ == self.fractions(),
            forall|i: int| 0 <= i < 4 ==> 0 < (#[trigger] r@[i]).1 && r@[i].0 <= r@[i].1,
    {
        let r = match self {
            Colors::Red => [(1, 1), (0, 1), (0, 1), (1, 1)],
            Colors::Green => [(0, 1), (1, 1), (0, 1), (1, 1)],
            Colors::Blue => [(0, 1), (0, 1), (1, 1), (1, 1)],
            Colors::Yellow => [(1, 1), (1, 1), (0, 1), (1, 1)],
            Colors::Black => [(0, 1), (0, 1), (0, 1), (1, 1)],
            Colors::White => [(1, 1), (1, 1), (1, 1), (1, 1)],
            Colors::Gray => [(1, 2), (1, 2), (1, 2), (1, 1)],
            Colors::Purple => [(1, 2), (0, 1), (1, 2), (1, 1)],
            Colors::Pink => [(1, 1), (0, 1), (1, 1), (1, 1)],
            Colors::Brown => [(6, 10), (3, 10), (1, 10), (1, 1)],
            Colors::Orange => [(1, 1), (1, 2), (0, 1), (1, 1)],
            Colors::Magenta => [(1, 1), (0, 1), (1, 1), (1, 1)],
            Colors::Cyan => [(0, 1), (1, 1), (1, 1), (1, 1)],
            Colors::Custom(r, g, b, a) => [(*r, 255), (*g, 255), (*b, 255), (*a, 255)],
        };
        assert(r@ =~= self.fractions());
        r
    }
}

} // verus!

//! One face of the cube: a 3×3 grid of cells, its quarter turns, and the
//! four lines of three cells along its edges.

use vstd::prelude::*;
use crate::colour::Colour;

verus! {

/// Three cells along one edge of a face, in clockwise order as seen on that
/// face.
#[derive(Copy, Clone, PartialEq, Eq, Debug, Structural)]
pub struct Line(pub Colour, pub Colour, pub Colour);

/// One of the four edges of a face.
#[derive(Copy, Clone, PartialEq, Eq, Debug, Structural)]
pub enum Border {
    Upper,
    Right,
    Bottom,
    Left,
}

/// A 3×3 grid of cells. The fields name the cells by row (`u`pper, `m`iddle,
/// `b`ottom) and column (`l`eft, `m`iddle, `r`ight).
#[derive(Copy, Clone, PartialEq, Eq, Debug, Structural)]
pub struct Face {
    pub ul: Colour,
    pub um: Colour,
    pub ur: Colour,
    pub ml: Colour,
    pub mm: Colour,
    pub mr: Colour,
    pub bl: Colour,
    pub bm: Colour,
    pub br: Colour,
}

impl Face {
    /// The face whose nine cells all have the colour `colour`.
    pub open spec fn filled(colour: Colour) -> Face {
        Face {
            ul: colour,
            um: colour,
            ur: colour,
            ml: colour,
            mm: colour,
            mr: colour,
            bl: colour,
            bm: colour,
            br: colour,
        }
    }

    /// The nine cells, row by row from the upper left.
    pub open spec fn cells(self) -> Seq<Colour> {
        seq![
            self.ul, self.um, self.ur,
            self.ml, self.mm, self.mr,
            self.bl, self.bm, self.br,
        ]
    }

    /// The eight perimeter cells in clockwise order, starting at the upper
    /// left corner. Corners stand at even positions, edges at odd ones.
    pub open spec fn ring(self) -> Seq<Colour> {
        seq![
            self.ul, self.um, self.ur, self.mr,
            self.br, self.bm, self.bl, self.ml,
        ]
    }

    /// The face after a clockwise quarter turn.
    pub open spec fn rotated_cw(self) -> Face {
        Face {
            ul: self.bl,
            um: self.ml,
            ur: self.ul,
            ml: self.bm,
            mm: self.mm,
            mr: self.um,
            bl: self.br,
            bm: self.mr,
            br: self.ur,
        }
    }

    /// The face after a counterclockwise quarter turn.
    pub open spec fn rotated_ccw(self) -> Face {
        Face {
            ul: self.ur,
            um: self.mr,
            ur: self.br,
            ml: self.um,
            mm: self.mm,
            mr: self.bm,
            bl: self.ul,
            bm: self.ml,
            br: self.bl,
        }
    }

    /// The face after a half turn: every cell changes places with the one
    /// opposite to it through the centre.
    pub open spec fn rotated_half(self) -> Face {
        Face {
            ul: self.br,
            um: self.bm,
            ur: self.bl,
            ml: self.mr,
            mm: self.mm,
            mr: self.ml,
            bl: self.ur,
            bm: self.um,
            br: self.ul,
        }
    }

    /// The face after `quarters` clockwise quarter turns; a negative number
    /// turns it counterclockwise.
    pub open spec fn rotated_by(self, quarters: int) -> Face {
        let q = quarters % 4;
        if q == 0 {
            self
        } else if q == 1 {
            self.rotated_cw()
        } else if q == 2 {
            self.rotated_half()
        } else {
            self.rotated_ccw()
        }
    }

    /// The left edge, read from the bottom up.
    pub open spec fn left_line(self) -> Line {
        Line(self.bl, self.ml, self.ul)
    }

    /// The upper edge, read from left to right.
    pub open spec fn upper_line(self) -> Line {
        Line(self.ul, self.um, self.ur)
    }

    /// The right edge, read from the top down.
    pub open spec fn right_line(self) -> Line {
        Line(self.ur, self.mr, self.br)
    }

    /// The bottom edge, read from right to left.
    pub open spec fn bottom_line(self) -> Line {
        Line(self.br, self.bm, self.bl)
    }

    /// The edge `border`, read clockwise. Opaque, so that proofs about an
    /// edge that is not known do not split into four cases: `reveal` it to
    /// compute with a given border.
    #[verifier::opaque]
    pub open spec fn line(self, border: Border) -> Line {
        match border {
            Border::Upper => self.upper_line(),
            Border::Right => self.right_line(),
            Border::Bottom => self.bottom_line(),
            Border::Left => self.left_line(),
        }
    }

    /// The face with its left edge replaced by `line`.
    pub open spec fn with_left_line(self, line: Line) -> Face {
        Face { bl: line.0, ml: line.1, ul: line.2, ..self }
    }

    /// The face with its upper edge replaced by `line`.
    pub open spec fn with_upper_line(self, line: Line) -> Face {
        Face { ul: line.0, um: line.1, ur: line.2, ..self }
    }

    /// The face with its right edge replaced by `line`.
    pub open spec fn with_right_line(self, line: Line) -> Face {
        Face { ur: line.0, mr: line.1, br: line.2, ..self }
    }

    /// The face with its bottom edge replaced by `line`.
    pub open spec fn with_bottom_line(self, line: Line) -> Face {
        Face { br: line.0, bm: line.1, bl: line.2, ..self }
    }

    /// The face with the edge `border` replaced by `line`. Opaque for the
    /// same reason as [`Face::line`].
    #[verifier::opaque]
    pub open spec fn with_line(self, border: Border, line: Line) -> Face {
        match border {
            Border::Upper => self.with_upper_line(line),
            Border::Right => self.with_right_line(line),
            Border::Bottom => self.with_bottom_line(line),
            Border::Left => self.with_left_line(line),
        }
    }

    /// Creates a face of a single colour.
    pub fn fill(colour: Colour) -> (face: Face)
        ensures
            face == Face::filled(colour),
    {
        Face {
            ul: colour,
            um: colour,
            ur: colour,
            ml: colour,
            mm: colour,
            mr: colour,
            bl: colour,
            bm: colour,
            br: colour,
        }
    }

    /// Turns the face a quarter turn clockwise.
    pub fn rot_clockwise(&mut self)
        ensures
            *final(self) == old(self).rotated_cw(),
    {
        let new_face = Face {
            ul: self.bl,
            um: self.ml,
            ur: self.ul,
            ml: self.bm,
            mm: self.mm,
            mr: self.um,
            bl: self.br,
            bm: self.mr,
            br: self.ur,
        };
        *self = new_face;
    }

    /// Turns the face a quarter turn counterclockwise.
    pub fn rot_counterclockwise(&mut self)
        ensures
            *final(self) == old(self).rotated_ccw(),
    {
        let new_face = Face {
            ul: self.ur,
            um: self.mr,
            ur: self.br,
            ml: self.um,
            mm: self.mm,
            mr: self.bm,
            bl: self.ul,
            bm: self.ml,
            br: self.bl,
        };
        *self = new_face;
    }

    /// Reads the left edge.
    pub fn get_left_line(&self) -> (line: Line)
        ensures
            line == self.left_line(),
    {
        Line(self.bl, self.ml, self.ul)
    }

    /// Reads the upper edge.
    pub fn get_upper_line(&self) -> (line: Line)
        ensures
            line == self.upper_line(),
    {
        Line(self.ul, self.um, self.ur)
    }

    /// Reads the right edge.
    pub fn get_right_line(&self) -> (line: Line)
        ensures
            line == self.right_line(),
    {
        Line(self.ur, self.mr, self.br)
    }

    /// Reads the bottom edge.
    pub fn get_bottom_line(&self) -> (line: Line)
        ensures
            line == self.bottom_line(),
    {
        Line(self.br, self.bm, self.bl)
    }

    /// Overwrites the left edge and nothing else.
    pub fn set_left_line(&mut self, line: Line)
        ensures
            *final(self) == old(self).with_left_line(line),
    {
        self.bl = line.0;
        self.ml = line.1;
        self.ul = line.2;
    }

    /// Overwrites the upper edge and nothing else.
    pub fn set_upper_line(&mut self, line: Line)
        ensures
            *final(self) == old(self).with_upper_line(line),
    {
        self.ul = line.0;
        self.um = line.1;
        self.ur = line.2;
    }

    /// Overwrites the right edge and nothing else.
    pub fn set_right_line(&mut self, line: Line)
        ensures
            *final(self) == old(self).with_right_line(line),
    {
        self.ur = line.0;
        self.mr = line.1;
        self.br = line.2;
    }

    /// Overwrites the bottom edge and nothing else.
    pub fn set_bottom_line(&mut self, line: Line)
        ensures
            *final(self) == old(self).with_bottom_line(line),
    {
        self.br = line.0;
        self.bm = line.1;
        self.bl = line.2;
    }
}

} // verus!

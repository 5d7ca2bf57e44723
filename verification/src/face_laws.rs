//! What holds of every face: the algebra of its quarter turns, and how its
//! four lines share the corners.

use vstd::prelude::*;
use crate::face::{Border, Face, Line};

verus! {

impl Face {
    /// A clockwise and a counterclockwise quarter turn undo each other, in
    /// either order.
    pub proof fn lemma_quarter_turns_inverse(self)
        ensures
            self.rotated_ccw().rotated_cw() == self,
            self.rotated_cw().rotated_ccw() == self,
    {
    }

    /// Four clockwise quarter turns bring the face back, and so do four
    /// counterclockwise ones.
    pub proof fn lemma_quarter_turn_order_four(self)
        ensures
            self.rotated_cw().rotated_cw().rotated_cw().rotated_cw() == self,
            self.rotated_ccw().rotated_ccw().rotated_ccw().rotated_ccw() == self,
    {
    }

    /// Two quarter turns in the same direction are a half turn, whichever
    /// the direction; a half turn is its own inverse.
    pub proof fn lemma_two_quarter_turns_are_half(self)
        ensures
            self.rotated_cw().rotated_cw() == self.rotated_half(),
            self.rotated_ccw().rotated_ccw() == self.rotated_half(),
            self.rotated_half().rotated_half() == self,
    {
    }

    /// A counterclockwise quarter turn is three clockwise ones.
    pub proof fn lemma_ccw_is_three_cw(self)
        ensures
            self.rotated_ccw() == self.rotated_cw().rotated_cw().rotated_cw(),
    {
    }

    /// Turning a face in two steps is turning it by the sum.
    pub proof fn lemma_rotated_by_adds(self, first: int, second: int)
        ensures
            self.rotated_by(first).rotated_by(second) == self.rotated_by(first + second),
    {
    }

    /// A clockwise quarter turn keeps the centre and moves every perimeter
    /// cell two places forward along the ring; a counterclockwise one moves
    /// it two places back.
    pub proof fn lemma_quarter_turn_shifts_ring(self)
        ensures
            self.ring().len() == 8,
            self.rotated_cw().mm == self.mm,
            self.rotated_ccw().mm == self.mm,
            forall|i: int|
                0 <= i < 8 ==> self.rotated_cw().ring()[(i + 2) % 8] == #[trigger] self.ring()[i],
            forall|i: int|
                0 <= i < 8 ==> #[trigger] self.rotated_ccw().ring()[i] == self.ring()[(i + 2) % 8],
    {
    }

    /// A clockwise quarter turn carries each edge, read as it stands, to the
    /// next edge clockwise.
    pub proof fn lemma_quarter_turn_carries_lines(self)
        ensures
            self.rotated_cw().upper_line() == self.left_line(),
            self.rotated_cw().right_line() == self.upper_line(),
            self.rotated_cw().bottom_line() == self.right_line(),
            self.rotated_cw().left_line() == self.bottom_line(),
    {
    }

    /// Reading an edge that was just written gives back what was written.
    pub proof fn lemma_line_read_after_write(self, line: Line)
        ensures
            self.with_left_line(line).left_line() == line,
            self.with_upper_line(line).upper_line() == line,
            self.with_right_line(line).right_line() == line,
            self.with_bottom_line(line).bottom_line() == line,
    {
    }

    /// Writing back an edge that was just read changes nothing.
    pub proof fn lemma_line_write_after_read(self)
        ensures
            self.with_left_line(self.left_line()) == self,
            self.with_upper_line(self.upper_line()) == self,
            self.with_right_line(self.right_line()) == self,
            self.with_bottom_line(self.bottom_line()) == self,
    {
    }

    /// The four edges follow one another clockwise: each begins at the
    /// corner where the one before it ends.
    pub proof fn lemma_lines_meet_at_corners(self)
        ensures
            self.left_line().2 == self.upper_line().0,
            self.upper_line().2 == self.right_line().0,
            self.right_line().2 == self.bottom_line().0,
            self.bottom_line().2 == self.left_line().0,
    {
    }

    /// The four edges, each read up to its last cell, make up the ring: the
    /// eight perimeter cells are the cells of the four lines, every corner
    /// counted once.
    pub proof fn lemma_lines_make_the_ring(self)
        ensures
            self.ring() == seq![
                self.upper_line().0,
                self.upper_line().1,
                self.right_line().0,
                self.right_line().1,
                self.bottom_line().0,
                self.bottom_line().1,
                self.left_line().0,
                self.left_line().1,
            ],
    {
    }

    /// The four lines of one face, written to another, make it that face,
    /// centre apart.
    pub proof fn lemma_lines_make_the_face(self, other: Face)
        ensures
            self.with_upper_line(other.upper_line()).with_right_line(
                other.right_line(),
            ).with_bottom_line(other.bottom_line()).with_left_line(other.left_line()) == (Face {
                mm: self.mm,
                ..other
            }),
    {
    }

    /// Writing an edge leaves the centre alone, and the opposite edge too.
    pub proof fn lemma_line_write_is_local(self, line: Line)
        ensures
            self.with_left_line(line).mm == self.mm,
            self.with_upper_line(line).mm == self.mm,
            self.with_right_line(line).mm == self.mm,
            self.with_bottom_line(line).mm == self.mm,
            self.with_left_line(line).right_line() == self.right_line(),
            self.with_right_line(line).left_line() == self.left_line(),
            self.with_upper_line(line).bottom_line() == self.bottom_line(),
            self.with_bottom_line(line).upper_line() == self.upper_line(),
    {
    }

    /// A corner belongs to two edges and holds what was written last: after
    /// writing two neighbouring edges the second reads as written, and the
    /// first keeps its own first two cells.
    pub proof fn lemma_last_write_wins_at_corner(self, first: Line, second: Line)
        ensures
            self.with_left_line(first).with_upper_line(second).upper_line() == second,
            self.with_left_line(first).with_upper_line(second).left_line() == Line(
                first.0,
                first.1,
                second.0,
            ),
            self.with_upper_line(first).with_right_line(second).upper_line() == Line(
                first.0,
                first.1,
                second.0,
            ),
            self.with_right_line(first).with_bottom_line(second).right_line() == Line(
                first.0,
                first.1,
                second.0,
            ),
            self.with_bottom_line(first).with_left_line(second).bottom_line() == Line(
                first.0,
                first.1,
                second.0,
            ),
    {
    }

    /// Whichever the edge: writing it twice leaves what was written last,
    /// reading it gives what was written to it, and writing back what was
    /// read changes nothing.
    pub proof fn lemma_line_written_twice(self, border: Border, first: Line, second: Line)
        ensures
            self.with_line(border, first).with_line(border, second) == self.with_line(
                border,
                second,
            ),
            self.with_line(border, first).line(border) == first,
            self.with_line(border, self.line(border)) == self,
    {
        reveal(Face::line);
        reveal(Face::with_line);
    }

    /// Neither turning a face nor writing one of its edges touches the
    /// centre.
    pub proof fn lemma_centre_stays(self, quarters: int, border: Border, line: Line)
        ensures
            self.rotated_by(quarters).mm == self.mm,
            self.with_line(border, line).mm == self.mm,
    {
        reveal(Face::with_line);
    }
}

} // verus!

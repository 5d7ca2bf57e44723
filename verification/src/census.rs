//! Counting colours: the census of a face and of a cube, and the proof that
//! no turn changes it.

use vstd::prelude::*;
use vstd::multiset::Multiset;
use crate::algorithm::{Move, Side};
use crate::colour::Colour;
use crate::cube::Cube;
use crate::face::{Border, Face, Line};

verus! {

/// One if the cell `cell` has the colour `colour`, else zero. Opaque, so
/// that a tally is a sum of nine unknowns and not a tree of cases: `reveal`
/// it to count the cells of a given face.
#[verifier::opaque]
pub open spec fn hit(cell: Colour, colour: Colour) -> int {
    if cell == colour {
        1
    } else {
        0
    }
}

/// Appending a cell to a sequence raises the count of its colour by one and
/// no other count.
proof fn lemma_push_counts(cells: Seq<Colour>, cell: Colour, colour: Colour)
    ensures
        cells.push(cell).to_multiset().count(colour) == cells.to_multiset().count(colour) + hit(
            cell,
            colour,
        ),
{
    reveal(hit);
    vstd::seq_lib::to_multiset_build(cells, cell);
}

impl Line {
    /// How many of the three cells have the colour `colour`.
    pub open spec fn tally(self, colour: Colour) -> int {
        hit(self.0, colour) + hit(self.1, colour) + hit(self.2, colour)
    }
}

impl Face {
    /// The colours of the nine cells, each as often as it occurs.
    pub open spec fn census(self) -> Multiset<Colour> {
        self.cells().to_multiset()
    }

    /// How many of the nine cells have the colour `colour`.
    pub open spec fn tally(self, colour: Colour) -> int {
        hit(self.ul, colour) + hit(self.um, colour) + hit(self.ur, colour) + hit(self.ml, colour)
            + hit(self.mm, colour) + hit(self.mr, colour) + hit(self.bl, colour) + hit(
            self.bm,
            colour,
        ) + hit(self.br, colour)
    }

    /// The census holds each colour as often as the cells show it.
    pub proof fn lemma_census_counts(self, colour: Colour)
        ensures
            self.census().count(colour) == self.tally(colour),
            self.census().len() == 9,
    {
        let s0 = Seq::<Colour>::empty();
        let s1 = s0.push(self.ul);
        let s2 = s1.push(self.um);
        let s3 = s2.push(self.ur);
        let s4 = s3.push(self.ml);
        let s5 = s4.push(self.mm);
        let s6 = s5.push(self.mr);
        let s7 = s6.push(self.bl);
        let s8 = s7.push(self.bm);
        let s9 = s8.push(self.br);
        assert(s0.to_multiset().count(colour) == 0) by {
            s0.to_multiset_ensures();
            vstd::multiset::lemma_multiset_empty_len(s0.to_multiset());
        }
        lemma_push_counts(s0, self.ul, colour);
        lemma_push_counts(s1, self.um, colour);
        lemma_push_counts(s2, self.ur, colour);
        lemma_push_counts(s3, self.ml, colour);
        lemma_push_counts(s4, self.mm, colour);
        lemma_push_counts(s5, self.mr, colour);
        lemma_push_counts(s6, self.bl, colour);
        lemma_push_counts(s7, self.bm, colour);
        lemma_push_counts(s8, self.br, colour);
        assert(s9 =~= self.cells());
        self.cells().to_multiset_ensures();
    }

    /// No turn of a face loses or invents a colour: the nine cells after it
    /// are the nine cells before it, in other places.
    pub proof fn lemma_turns_keep_census(self)
        ensures
            self.rotated_cw().census() == self.census(),
            self.rotated_ccw().census() == self.census(),
            self.rotated_half().census() == self.census(),
    {
        assert forall|c: Colour|
            self.rotated_cw().census().count(c) == self.census().count(c)
            && self.rotated_ccw().census().count(c) == self.census().count(c)
            && self.rotated_half().census().count(c) == self.census().count(c) by {
            self.lemma_census_counts(c);
            self.rotated_cw().lemma_census_counts(c);
            self.rotated_ccw().lemma_census_counts(c);
            self.rotated_half().lemma_census_counts(c);
        }
        assert(self.rotated_cw().census() =~= self.census());
        assert(self.rotated_ccw().census() =~= self.census());
        assert(self.rotated_half().census() =~= self.census());
    }

    /// Turning a face leaves the number of cells of each colour as it was.
    pub proof fn lemma_turns_keep_tally(self, quarters: int, colour: Colour)
        ensures
            self.rotated_by(quarters).tally(colour) == self.tally(colour),
    {
    }

    /// Writing an edge takes the cells of the old line out of the tally and
    /// puts those of the new line in.
    #[verifier::rlimit(50)]
    pub proof fn lemma_line_write_tally(self, border: Border, line: Line, colour: Colour)
        ensures
            self.with_line(border, line).tally(colour) + self.line(border).tally(colour)
                == self.tally(colour) + line.tally(colour),
    {
        reveal(Face::line);
        reveal(Face::with_line);
    }
}

impl Cube {
    /// The fifty-four cells, face by face: up, front, left, back, right,
    /// down.
    pub open spec fn cells(self) -> Seq<Colour> {
        self.up.cells() + self.front.cells() + self.left.cells() + self.back.cells()
            + self.right.cells() + self.down.cells()
    }

    /// The colours of the fifty-four cells, each as often as it occurs.
    pub open spec fn census(self) -> Multiset<Colour> {
        self.cells().to_multiset()
    }

    /// How many of the fifty-four cells have the colour `colour`.
    pub open spec fn tally(self, colour: Colour) -> int {
        self.up.tally(colour) + self.front.tally(colour) + self.left.tally(colour)
            + self.back.tally(colour) + self.right.tally(colour) + self.down.tally(colour)
    }

    /// The census holds each colour as often as the cells show it.
    pub proof fn lemma_census_counts(self, colour: Colour)
        ensures
            self.census().count(colour) == self.tally(colour),
            self.census().len() == 54,
    {
        let a = self.up.cells();
        let b = self.front.cells();
        let c = self.left.cells();
        let d = self.back.cells();
        let e = self.right.cells();
        let f = self.down.cells();
        vstd::seq_lib::lemma_multiset_commutative(a, b);
        vstd::seq_lib::lemma_multiset_commutative(a + b, c);
        vstd::seq_lib::lemma_multiset_commutative(a + b + c, d);
        vstd::seq_lib::lemma_multiset_commutative(a + b + c + d, e);
        vstd::seq_lib::lemma_multiset_commutative(a + b + c + d + e, f);
        self.up.lemma_census_counts(colour);
        self.front.lemma_census_counts(colour);
        self.left.lemma_census_counts(colour);
        self.back.lemma_census_counts(colour);
        self.right.lemma_census_counts(colour);
        self.down.lemma_census_counts(colour);
    }

    /// Two cubes that show every colour equally often have the same census.
    pub proof fn lemma_census_by_tally(self, other: Cube)
        requires
            forall|colour: Colour| self.tally(colour) == other.tally(colour),
        ensures
            self.census() == other.census(),
    {
        assert forall|colour: Colour| self.census().count(colour) == other.census().count(
            colour,
        ) by {
            self.lemma_census_counts(colour);
            other.lemma_census_counts(colour);
        }
        assert(self.census() =~= other.census());
    }

    /// A sum over the six sides may be taken in the order of the side
    /// `side`, the side opposite, and the four sides around it.
    pub proof fn lemma_sum_by_sides(each: spec_fn(Side) -> int, side: Side)
        ensures
            each(Side::Up) + each(Side::Front) + each(Side::Left) + each(Side::Back) + each(
                Side::Right,
            ) + each(Side::Down) == each(side) + each(side.opposite()) + each(
                Cube::neighbour(side, 0).0,
            ) + each(Cube::neighbour(side, 1).0) + each(Cube::neighbour(side, 2).0) + each(
                Cube::neighbour(side, 3).0,
            ),
    {
        reveal(Cube::neighbour);
    }

    /// The cells of a cube are the cells of the side `side`, of the side
    /// opposite, and of the four sides around it.
    pub proof fn lemma_tally_by_sides(self, side: Side, colour: Colour)
        ensures
            self.tally(colour) == self.face(side).tally(colour) + self.face(side.opposite()).tally(
                colour,
            ) + self.face(Cube::neighbour(side, 0).0).tally(colour) + self.face(
                Cube::neighbour(side, 1).0,
            ).tally(colour) + self.face(Cube::neighbour(side, 2).0).tally(colour) + self.face(
                Cube::neighbour(side, 3).0,
            ).tally(colour),
    {
        let each = |t: Side| self.face(t).tally(colour);
        Cube::lemma_sum_by_sides(each, side);
        assert(self.tally(colour) == each(Side::Up) + each(Side::Front) + each(Side::Left) + each(
            Side::Back,
        ) + each(Side::Right) + each(Side::Down)) by {
            reveal(Cube::face);
        }
    }

    /// What a turn does to the tally of one of the four faces around the
    /// side: the line that stood on its edge goes out, the line that
    /// arrives comes in.
    pub proof fn lemma_turn_moves_tally(
        self,
        side: Side,
        quarters: int,
        place: int,
        colour: Colour,
    )
        requires
            0 <= place < 4,
        ensures
            self.turned_by(side, quarters).face(Cube::neighbour(side, place).0).tally(colour)
                + self.line_at(Cube::neighbour(side, place)).tally(colour) == self.face(
                Cube::neighbour(side, place).0,
            ).tally(colour) + self.line_at(Cube::neighbour(side, (place - quarters) % 4)).tally(
                colour,
            ),
    {
        let at = Cube::neighbour(side, place);
        let from = Cube::neighbour(side, (place - quarters) % 4);
        Cube::lemma_neighbours_are_the_four_others(side, at.0);
        self.lemma_turned_by_faces(side, quarters, at.0);
        self.face(at.0).lemma_line_write_tally(at.1, self.line_at(from), colour);
    }

    /// The four lines around a side hold the same cells after a turn as
    /// before it, each line on another edge.
    pub proof fn lemma_turn_keeps_lines_tally(self, side: Side, quarters: int, colour: Colour)
        ensures
            self.line_at(Cube::neighbour(side, (0 - quarters) % 4)).tally(colour) + self.line_at(
                Cube::neighbour(side, (1 - quarters) % 4),
            ).tally(colour) + self.line_at(Cube::neighbour(side, (2 - quarters) % 4)).tally(colour)
                + self.line_at(Cube::neighbour(side, (3 - quarters) % 4)).tally(colour)
                == self.line_at(Cube::neighbour(side, 0)).tally(colour) + self.line_at(
                Cube::neighbour(side, 1),
            ).tally(colour) + self.line_at(Cube::neighbour(side, 2)).tally(colour) + self.line_at(
                Cube::neighbour(side, 3),
            ).tally(colour),
    {
        let first = (0 - quarters) % 4;
        assert((1 - quarters) % 4 == (first + 1) % 4);
        assert((2 - quarters) % 4 == (first + 2) % 4);
        assert((3 - quarters) % 4 == (first + 3) % 4);
    }

    /// No turn loses or invents a colour: the cube shows each colour as
    /// often after it as before.
    pub proof fn lemma_turn_keeps_tally(self, side: Side, quarters: int, colour: Colour)
        ensures
            self.turned_by(side, quarters).tally(colour) == self.tally(colour),
    {
        let after = self.turned_by(side, quarters);
        self.lemma_tally_by_sides(side, colour);
        after.lemma_tally_by_sides(side, colour);
        self.lemma_turned_by_faces(side, quarters, side);
        self.lemma_turned_by_faces(side, quarters, side.opposite());
        Cube::lemma_neighbours_are_the_four_others(side, side);
        self.face(side).lemma_turns_keep_tally(quarters, colour);
        self.lemma_turn_moves_tally(side, quarters, 0, colour);
        self.lemma_turn_moves_tally(side, quarters, 1, colour);
        self.lemma_turn_moves_tally(side, quarters, 2, colour);
        self.lemma_turn_moves_tally(side, quarters, 3, colour);
        self.lemma_turn_keeps_lines_tally(side, quarters, colour);
    }

    /// Every turn is a rearrangement of the fifty-four cells: the census
    /// after it is the census before it.
    pub proof fn lemma_turn_keeps_census(self, side: Side)
        ensures
            self.turned(side).census() == self.census(),
            self.turned_prime(side).census() == self.census(),
            self.turned_twice(side).census() == self.census(),
            forall|quarters: int| #[trigger]
                self.turned_by(side, quarters).census() == self.census(),
    {
        assert forall|quarters: int| #[trigger]
            self.turned_by(side, quarters).census() == self.census() by {
            assert forall|colour: Colour|
                self.turned_by(side, quarters).tally(colour) == self.tally(colour) by {
                self.lemma_turn_keeps_tally(side, quarters, colour);
            }
            self.turned_by(side, quarters).lemma_census_by_tally(self);
        }
        self.lemma_turns_in_quarters(side);
    }

    /// Every move keeps the census.
    pub proof fn lemma_move_keeps_census(self, mv: Move)
        ensures
            self.moved(mv).census() == self.census(),
    {
        self.lemma_turn_keeps_census(mv.side);
    }

    /// Every sequence of moves keeps the census.
    pub proof fn lemma_run_keeps_census(self, moves: Seq<Move>)
        ensures
            self.run(moves).census() == self.census(),
        decreases moves.len(),
    {
        if moves.len() > 0 {
            self.lemma_run_keeps_census(moves.drop_last());
            self.run(moves.drop_last()).lemma_move_keeps_census(moves.last());
        }
    }

    /// The solved cube shows each of the six colours nine times, and so does
    /// every cube that moves lead to from it.
    pub proof fn lemma_nine_of_each_colour(moves: Seq<Move>, colour: Colour)
        ensures
            Cube::solved().census().count(colour) == 9,
            Cube::solved().run(moves).census().count(colour) == 9,
            Cube::solved().run(moves).census().len() == 54,
    {
        reveal(hit);
        Cube::solved().lemma_census_counts(colour);
        Cube::solved().lemma_run_keeps_census(moves);
    }
}

} // verus!

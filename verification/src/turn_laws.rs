//! The algebra of turns: what holds of every cube and every side.
//!
//! The algebra treats a cube as a map from sides to faces. It rests on one
//! fact about the table of neighbours, that the four edges around a side lie
//! on the four faces next to it, and never on which edge stands where. The
//! table itself is written out, side by side, at the end.

use vstd::prelude::*;
use crate::algorithm::{Move, Side};
use crate::cube::{shifted, Cube};
use crate::face::{Border, Face, Line};

verus! {

/// Counting back around four places in two steps is counting back by the
/// sum.
pub proof fn lemma_steps_around(place: int, first: int, second: int)
    ensures
        0 <= (place - first) % 4 < 4,
        ((place - second) % 4 - first) % 4 == (place - (first + second)) % 4,
{
}

impl Cube {
    /// A cube is given by its six faces.
    pub proof fn lemma_faces_determine(self, other: Cube)
        requires
            forall|side: Side| self.face(side) == other.face(side),
        ensures
            self == other,
    {
        reveal(Cube::face);
        assert(self.face(Side::Up) == other.face(Side::Up));
        assert(self.face(Side::Down) == other.face(Side::Down));
        assert(self.face(Side::Front) == other.face(Side::Front));
        assert(self.face(Side::Back) == other.face(Side::Back));
        assert(self.face(Side::Left) == other.face(Side::Left));
        assert(self.face(Side::Right) == other.face(Side::Right));
    }

    /// The edges around a side lie on four different faces: all but the side
    /// itself and the one opposite.
    pub proof fn lemma_neighbours_are_the_four_others(side: Side, other: Side)
        ensures
            ({
                let a = Cube::neighbour(side, 0).0;
                let b = Cube::neighbour(side, 1).0;
                let c = Cube::neighbour(side, 2).0;
                let d = Cube::neighbour(side, 3).0;
                &&& a != b && a != c && a != d && b != c && b != d && c != d
                &&& a != side && b != side && c != side && d != side
                &&& a != side.opposite() && b != side.opposite() && c != side.opposite() && d
                    != side.opposite()
                &&& other == side || other == side.opposite() || other == a || other == b || other
                    == c || other == d
            }),
    {
        reveal(Cube::neighbour);
    }

    /// Replacing a face changes that face and no other.
    pub proof fn lemma_face_write_faces(self, at: Side, face: Face, side: Side)
        ensures
            self.with_face(at, face).face(side) == if side == at {
                face
            } else {
                self.face(side)
            },
    {
        reveal(Cube::face);
        reveal(Cube::with_face);
    }

    /// Writing a line changes the face it lies on and no other.
    pub proof fn lemma_line_write_faces(self, at: (Side, Border), line: Line, side: Side)
        ensures
            self.with_line_at(at, line).face(side) == if side == at.0 {
                self.face(side).with_line(at.1, line)
            } else {
                self.face(side)
            },
    {
        self.lemma_face_write_faces(at.0, self.face(at.0).with_line(at.1, line), side);
    }

    /// A face and four lines around it, written together, change the faces
    /// they lie on and leave the opposite face as it was.
    pub proof fn lemma_turn_writes(self, side: Side, face: Face, lines: Seq<Line>, other: Side)
        requires
            lines.len() == 4,
        ensures
            self.with_face(side, face).with_lines(side, lines).face(other) == if other == side {
                face
            } else if other == Cube::neighbour(side, 0).0 {
                self.face(other).with_line(Cube::neighbour(side, 0).1, lines[0])
            } else if other == Cube::neighbour(side, 1).0 {
                self.face(other).with_line(Cube::neighbour(side, 1).1, lines[1])
            } else if other == Cube::neighbour(side, 2).0 {
                self.face(other).with_line(Cube::neighbour(side, 2).1, lines[2])
            } else if other == Cube::neighbour(side, 3).0 {
                self.face(other).with_line(Cube::neighbour(side, 3).1, lines[3])
            } else {
                self.face(other)
            },
    {
        let c = self.with_face(side, face);
        let c0 = c.with_line_at(Cube::neighbour(side, 0), lines[0]);
        let c1 = c0.with_line_at(Cube::neighbour(side, 1), lines[1]);
        let c2 = c1.with_line_at(Cube::neighbour(side, 2), lines[2]);
        Cube::lemma_neighbours_are_the_four_others(side, other);
        self.lemma_face_write_faces(side, face, other);
        c.lemma_line_write_faces(Cube::neighbour(side, 0), lines[0], other);
        c0.lemma_line_write_faces(Cube::neighbour(side, 1), lines[1], other);
        c1.lemma_line_write_faces(Cube::neighbour(side, 2), lines[2], other);
        c2.lemma_line_write_faces(Cube::neighbour(side, 3), lines[3], other);
    }

    /// What a turn does, face by face: the face of the side turns, the face
    /// opposite stays, and each of the four others has the edge that borders
    /// the side overwritten with the line that stood `quarters` edges before
    /// it.
    pub proof fn lemma_turned_by_faces(self, side: Side, quarters: int, other: Side)
        ensures
            self.turned_by(side, quarters).face(other) == if other == side {
                self.face(side).rotated_by(quarters)
            } else if other == Cube::neighbour(side, 0).0 {
                self.face(other).with_line(
                    Cube::neighbour(side, 0).1,
                    self.line_at(Cube::neighbour(side, (0 - quarters) % 4)),
                )
            } else if other == Cube::neighbour(side, 1).0 {
                self.face(other).with_line(
                    Cube::neighbour(side, 1).1,
                    self.line_at(Cube::neighbour(side, (1 - quarters) % 4)),
                )
            } else if other == Cube::neighbour(side, 2).0 {
                self.face(other).with_line(
                    Cube::neighbour(side, 2).1,
                    self.line_at(Cube::neighbour(side, (2 - quarters) % 4)),
                )
            } else if other == Cube::neighbour(side, 3).0 {
                self.face(other).with_line(
                    Cube::neighbour(side, 3).1,
                    self.line_at(Cube::neighbour(side, (3 - quarters) % 4)),
                )
            } else {
                self.face(other)
            },
    {
        lemma_steps_around(0, quarters, 0);
        lemma_steps_around(1, quarters, 0);
        lemma_steps_around(2, quarters, 0);
        lemma_steps_around(3, quarters, 0);
        self.lemma_turn_writes(
            side,
            self.face(side).rotated_by(quarters),
            shifted(self.lines(side), quarters),
            other,
        );
    }

    /// What a turn does to the lines around the side: each edge then holds
    /// the line that stood `quarters` edges before it.
    pub proof fn lemma_turned_by_lines(self, side: Side, quarters: int, place: int)
        requires
            0 <= place < 4,
        ensures
            self.turned_by(side, quarters).line_at(Cube::neighbour(side, place)) == self.line_at(
                Cube::neighbour(side, (place - quarters) % 4),
            ),
    {
        let at = Cube::neighbour(side, place);
        self.lemma_turned_by_faces(side, quarters, at.0);
        Cube::lemma_neighbours_are_the_four_others(side, at.0);
        self.face(at.0).lemma_line_written_twice(
            at.1,
            self.line_at(Cube::neighbour(side, (place - quarters) % 4)),
            self.line_at(Cube::neighbour(side, (place - quarters) % 4)),
        );
    }

    /// Turning a side in two steps is turning it by the sum.
    pub proof fn lemma_turned_by_adds(self, side: Side, first: int, second: int)
        ensures
            self.turned_by(side, first).turned_by(side, second) == self.turned_by(
                side,
                first + second,
            ),
    {
        let mid = self.turned_by(side, first);
        let two = mid.turned_by(side, second);
        let one = self.turned_by(side, first + second);
        assert forall|t: Side| two.face(t) == one.face(t) by {
            Cube::lemma_neighbours_are_the_four_others(side, t);
            mid.lemma_turned_by_faces(side, second, t);
            self.lemma_turned_by_faces(side, first, t);
            self.lemma_turned_by_faces(side, first + second, t);
            if t == side {
                self.face(side).lemma_rotated_by_adds(first, second);
            } else if t == side.opposite() {
            } else {
                let place: int = if t == Cube::neighbour(side, 0).0 {
                    0
                } else if t == Cube::neighbour(side, 1).0 {
                    1
                } else if t == Cube::neighbour(side, 2).0 {
                    2
                } else {
                    3
                };
                let from = (place - second) % 4;
                lemma_steps_around(place, first, second);
                lemma_steps_around(place, second, 0);
                self.lemma_turned_by_lines(side, first, from);
                self.face(t).lemma_line_written_twice(
                    Cube::neighbour(side, place).1,
                    self.line_at(Cube::neighbour(side, (place - first) % 4)),
                    self.line_at(Cube::neighbour(side, (place - (first + second)) % 4)),
                );
            }
        }
        two.lemma_faces_determine(one);
    }

    /// Turning a side by no quarters changes nothing.
    pub proof fn lemma_turned_by_none(self, side: Side)
        ensures
            self.turned_by(side, 0) == self,
    {
        let same = self.turned_by(side, 0);
        assert forall|t: Side| same.face(t) == self.face(t) by {
            Cube::lemma_neighbours_are_the_four_others(side, t);
            self.lemma_turned_by_faces(side, 0, t);
            if t != side && t != side.opposite() {
                let place: int = if t == Cube::neighbour(side, 0).0 {
                    0
                } else if t == Cube::neighbour(side, 1).0 {
                    1
                } else if t == Cube::neighbour(side, 2).0 {
                    2
                } else {
                    3
                };
                let at = Cube::neighbour(side, place);
                self.face(t).lemma_line_written_twice(at.1, self.line_at(at), self.line_at(at));
            }
        }
        same.lemma_faces_determine(self);
    }

    /// Turning a side all the way round changes nothing: only the quarters
    /// beyond full turns count.
    pub proof fn lemma_turned_by_full_turn(self, side: Side, quarters: int)
        ensures
            self.turned_by(side, quarters + 4) == self.turned_by(side, quarters),
            self.turned_by(side, quarters - 4) == self.turned_by(side, quarters),
    {
        assert(shifted(self.lines(side), quarters + 4) =~= shifted(self.lines(side), quarters));
        assert(shifted(self.lines(side), quarters - 4) =~= shifted(self.lines(side), quarters));
    }

    /// The three turns of the notation are turns by one quarter, by one
    /// quarter back, and by two quarters.
    pub proof fn lemma_turns_in_quarters(self, side: Side)
        ensures
            self.turned(side) == self.turned_by(side, 1),
            self.turned_prime(side) == self.turned_by(side, -1),
            self.turned_twice(side) == self.turned_by(side, 2),
    {
        self.face(side).lemma_two_quarter_turns_are_half();
    }

    /// A clockwise and a counterclockwise quarter turn of the same side undo
    /// each other, in either order.
    pub proof fn lemma_turn_inverse(self, side: Side)
        ensures
            self.turned_prime(side).turned(side) == self,
            self.turned(side).turned_prime(side) == self,
    {
        self.lemma_turns_in_quarters(side);
        self.turned_prime(side).lemma_turns_in_quarters(side);
        self.turned(side).lemma_turns_in_quarters(side);
        self.lemma_turned_by_adds(side, -1, 1);
        self.lemma_turned_by_adds(side, 1, -1);
        self.lemma_turned_by_none(side);
    }

    /// A turn is one-to-one and onto: two cubes that a turn makes equal were
    /// equal before it, and every cube is what the turn makes of some cube.
    pub proof fn lemma_turn_is_a_bijection(self, other: Cube, side: Side)
        ensures
            self.turned(side) == other.turned(side) ==> self == other,
            self.turned_prime(side).turned(side) == self,
    {
        self.lemma_turn_inverse(side);
        other.lemma_turn_inverse(side);
    }

    /// Four clockwise quarter turns of the same side bring the cube back.
    pub proof fn lemma_turn_order_four(self, side: Side)
        ensures
            self.turned(side).turned(side).turned(side).turned(side) == self,
    {
        let one = self.turned(side);
        let two = one.turned(side);
        let three = two.turned(side);
        self.lemma_turns_in_quarters(side);
        one.lemma_turns_in_quarters(side);
        two.lemma_turns_in_quarters(side);
        three.lemma_turns_in_quarters(side);
        self.lemma_turned_by_adds(side, 1, 1);
        self.lemma_turned_by_adds(side, 2, 1);
        self.lemma_turned_by_adds(side, 3, 1);
        self.lemma_turned_by_full_turn(side, 0);
        self.lemma_turned_by_none(side);
    }

    /// Two clockwise quarter turns of the same side are a half turn, and so
    /// are two counterclockwise ones; a half turn undoes itself.
    pub proof fn lemma_two_turns_are_half(self, side: Side)
        ensures
            self.turned(side).turned(side) == self.turned_twice(side),
            self.turned_prime(side).turned_prime(side) == self.turned_twice(side),
            self.turned_twice(side).turned_twice(side) == self,
    {
        self.lemma_turns_in_quarters(side);
        self.turned(side).lemma_turns_in_quarters(side);
        self.turned_prime(side).lemma_turns_in_quarters(side);
        self.turned_twice(side).lemma_turns_in_quarters(side);
        self.lemma_turned_by_adds(side, 1, 1);
        self.lemma_turned_by_adds(side, -1, -1);
        self.lemma_turned_by_adds(side, 2, 2);
        self.lemma_turned_by_full_turn(side, -2);
        self.lemma_turned_by_full_turn(side, 0);
        self.lemma_turned_by_none(side);
    }

    /// A counterclockwise quarter turn is three clockwise ones.
    pub proof fn lemma_prime_is_three_turns(self, side: Side)
        ensures
            self.turned_prime(side) == self.turned(side).turned(side).turned(side),
    {
        let one = self.turned(side);
        let two = one.turned(side);
        self.lemma_turns_in_quarters(side);
        one.lemma_turns_in_quarters(side);
        two.lemma_turns_in_quarters(side);
        self.lemma_turned_by_adds(side, 1, 1);
        self.lemma_turned_by_adds(side, 2, 1);
        self.lemma_turned_by_full_turn(side, -1);
    }

    /// A move is a turn of its side by the quarters of its kind.
    pub proof fn lemma_move_in_quarters(self, mv: Move)
        ensures
            self.moved(mv) == self.turned_by(mv.side, mv.ty.quarters()),
    {
        self.lemma_turns_in_quarters(mv.side);
    }

    /// Every move is undone by its inverse.
    pub proof fn lemma_move_inverse(self, mv: Move)
        ensures
            self.moved(mv).moved(mv.inverse()) == self,
            self.moved(mv.inverse()).moved(mv) == self,
            mv.inverse().inverse() == mv,
    {
        self.lemma_turn_inverse(mv.side);
        self.lemma_two_turns_are_half(mv.side);
    }

    /// Carrying out no moves changes nothing, and carrying out one move is
    /// that move.
    pub proof fn lemma_run_short(self, mv: Move)
        ensures
            self.run(Seq::empty()) == self,
            self.run(seq![mv]) == self.moved(mv),
    {
        assert(seq![mv].drop_last() =~= Seq::<Move>::empty());
        assert(self.run(seq![mv]) == self.run(seq![mv].drop_last()).moved(seq![mv].last()));
    }

    /// Carrying out one sequence of moves and then another is carrying out
    /// the two joined: moves are applied in the order given.
    pub proof fn lemma_run_joined(self, first: Seq<Move>, second: Seq<Move>)
        ensures
            self.run(first + second) == self.run(first).run(second),
        decreases second.len(),
    {
        if second.len() == 0 {
            assert(first + second =~= first);
        } else {
            self.lemma_run_joined(first, second.drop_last());
            assert((first + second).drop_last() =~= first + second.drop_last());
            assert((first + second).last() == second.last());
        }
    }

    /// The moves `moves` undone one by one, the last move first.
    pub open spec fn undoing(moves: Seq<Move>) -> Seq<Move> {
        Seq::new(moves.len(), |i: int| moves[moves.len() - 1 - i].inverse())
    }

    /// Every sequence of moves is undone by the inverses of its moves in
    /// reverse order.
    pub proof fn lemma_run_undone(self, moves: Seq<Move>)
        ensures
            self.run(moves).run(Cube::undoing(moves)) == self,
        decreases moves.len(),
    {
        if moves.len() == 0 {
            assert(Cube::undoing(moves) =~= Seq::<Move>::empty());
        } else {
            let before = moves.drop_last();
            let last = moves.last();
            let mid = self.run(before);
            assert(Cube::undoing(moves) =~= seq![last.inverse()] + Cube::undoing(before));
            mid.moved(last).lemma_run_joined(seq![last.inverse()], Cube::undoing(before));
            mid.moved(last).lemma_run_short(last.inverse());
            mid.lemma_move_inverse(last);
            self.lemma_run_undone(before);
        }
    }

    /// The clockwise quarter turn of the upper side, written out.
    proof fn lemma_turned_up(self)
        ensures
            self.turned(Side::Up) == self.turned_in_full(Side::Up),
    {
        reveal(Cube::face);
        reveal(Cube::with_face);
        reveal(Cube::neighbour);
        reveal(Face::line);
        reveal(Face::with_line);
    }

    /// The clockwise quarter turn of the lower side, written out.
    proof fn lemma_turned_down(self)
        ensures
            self.turned(Side::Down) == self.turned_in_full(Side::Down),
    {
        reveal(Cube::face);
        reveal(Cube::with_face);
        reveal(Cube::neighbour);
        reveal(Face::line);
        reveal(Face::with_line);
    }

    /// The clockwise quarter turn of the front side, written out.
    proof fn lemma_turned_front(self)
        ensures
            self.turned(Side::Front) == self.turned_in_full(Side::Front),
    {
        reveal(Cube::face);
        reveal(Cube::with_face);
        reveal(Cube::neighbour);
        reveal(Face::line);
        reveal(Face::with_line);
    }

    /// The clockwise quarter turn of the back side, written out.
    proof fn lemma_turned_back(self)
        ensures
            self.turned(Side::Back) == self.turned_in_full(Side::Back),
    {
        reveal(Cube::face);
        reveal(Cube::with_face);
        reveal(Cube::neighbour);
        reveal(Face::line);
        reveal(Face::with_line);
    }

    /// The clockwise quarter turn of the right side, written out.
    proof fn lemma_turned_right(self)
        ensures
            self.turned(Side::Right) == self.turned_in_full(Side::Right),
    {
        reveal(Cube::face);
        reveal(Cube::with_face);
        reveal(Cube::neighbour);
        reveal(Face::line);
        reveal(Face::with_line);
    }

    /// The clockwise quarter turn of the left side, written out.
    proof fn lemma_turned_left(self)
        ensures
            self.turned(Side::Left) == self.turned_in_full(Side::Left),
    {
        reveal(Cube::face);
        reveal(Cube::with_face);
        reveal(Cube::neighbour);
        reveal(Face::line);
        reveal(Face::with_line);
    }

    /// The table of neighbours, written out: a clockwise quarter turn turns
    /// the face of the side and hands each line around it to the next face.
    pub proof fn lemma_turned_in_full(self, side: Side)
        ensures
            self.turned(side) == self.turned_in_full(side),
    {
        match side {
            Side::Up => self.lemma_turned_up(),
            Side::Down => self.lemma_turned_down(),
            Side::Front => self.lemma_turned_front(),
            Side::Back => self.lemma_turned_back(),
            Side::Right => self.lemma_turned_right(),
            Side::Left => self.lemma_turned_left(),
        }
    }
}

} // verus!

//! The cube: six faces, the table of which edges border which side, and the
//! turns that this table drives.

use vstd::prelude::*;
use crate::algorithm::{Algorithm, Move, MoveType, Side};
use crate::colour::Colour;
use crate::face::{Border, Face, Line};

verus! {

/// Six faces, laid out as a cross: `up` above `front`, `down` below it, and
/// `left`, `front`, `right`, `back` side by side. Every face is seen from
/// outside the cube.
#[derive(Copy, Clone, PartialEq, Eq, Debug, Structural)]
pub struct Cube {
    pub up: Face,
    pub front: Face,
    pub left: Face,
    pub back: Face,
    pub right: Face,
    pub down: Face,
}

/// The entry number `i` of four, counting from zero.
pub open spec fn one_of_four<T>(i: int, first: T, second: T, third: T, fourth: T) -> T {
    if i == 0 {
        first
    } else if i == 1 {
        second
    } else if i == 2 {
        third
    } else {
        fourth
    }
}

/// Four lines with every one moved `by` places towards the end, those that
/// fall off the end coming back in at the front. A negative `by` moves them
/// towards the front.
pub open spec fn shifted(lines: Seq<Line>, by: int) -> Seq<Line>
    recommends
        lines.len() == 4,
{
    Seq::new(4, |i: int| lines[(i - by) % 4])
}

/// Moves every line one place towards the end, the last one to the front.
fn rotate_right(lines: [Line; 4]) -> (out: [Line; 4])
    ensures
        out@ == shifted(lines@, 1),
{
    let out = [lines[3], lines[0], lines[1], lines[2]];
    assert(out@ =~= shifted(lines@, 1));
    out
}

/// Moves every line one place towards the front, the first one to the end.
fn rotate_left(lines: [Line; 4]) -> (out: [Line; 4])
    ensures
        out@ == shifted(lines@, -1),
{
    let out = [lines[1], lines[2], lines[3], lines[0]];
    assert(out@ =~= shifted(lines@, -1));
    out
}

/// Shifting by one place twice is shifting by two, in either direction, and
/// to the same result.
pub proof fn lemma_shifted_twice(lines: Seq<Line>)
    requires
        lines.len() == 4,
    ensures
        shifted(shifted(lines, 1), 1) == shifted(lines, 2),
        shifted(shifted(lines, -1), -1) == shifted(lines, 2),
{
    assert(shifted(shifted(lines, 1), 1) =~= shifted(lines, 2));
    assert(shifted(shifted(lines, -1), -1) =~= shifted(lines, 2));
}

impl Cube {
    /// The solved cube: every face of one colour.
    pub open spec fn solved() -> Cube {
        Cube {
            up: Face::filled(Colour::White),
            front: Face::filled(Colour::Green),
            left: Face::filled(Colour::Orange),
            back: Face::filled(Colour::Blue),
            right: Face::filled(Colour::Red),
            down: Face::filled(Colour::Yellow),
        }
    }

    /// The face on the side `side`. Opaque, so that proofs about a side that
    /// is not known do not split into six cases: `reveal` it to compute
    /// with a given side.
    #[verifier::opaque]
    pub open spec fn face(self, side: Side) -> Face {
        match side {
            Side::Up => self.up,
            Side::Down => self.down,
            Side::Front => self.front,
            Side::Back => self.back,
            Side::Right => self.right,
            Side::Left => self.left,
        }
    }

    /// The cube with the face on the side `side` replaced by `face`. Opaque
    /// for the same reason as [`Cube::face`].
    #[verifier::opaque]
    pub open spec fn with_face(self, side: Side, face: Face) -> Cube {
        match side {
            Side::Up => Cube { up: face, ..self },
            Side::Down => Cube { down: face, ..self },
            Side::Front => Cube { front: face, ..self },
            Side::Back => Cube { back: face, ..self },
            Side::Right => Cube { right: face, ..self },
            Side::Left => Cube { left: face, ..self },
        }
    }

    /// The edge number `i` around the side `side`, counting from zero in the
    /// order in which a clockwise turn of `side` passes them: the table that
    /// drives every turn. Each entry names the face on which the edge lies
    /// and its place on that face. Opaque for the same reason as
    /// [`Cube::face`]; [`Cube::turned_in_full`] shows the table at work.
    #[verifier::opaque]
    pub open spec fn neighbour(side: Side, i: int) -> (Side, Border) {
        match side {
            Side::Up => one_of_four(
                i,
                (Side::Front, Border::Upper),
                (Side::Left, Border::Upper),
                (Side::Back, Border::Upper),
                (Side::Right, Border::Upper),
            ),
            Side::Down => one_of_four(
                i,
                (Side::Front, Border::Bottom),
                (Side::Right, Border::Bottom),
                (Side::Back, Border::Bottom),
                (Side::Left, Border::Bottom),
            ),
            Side::Front => one_of_four(
                i,
                (Side::Up, Border::Bottom),
                (Side::Right, Border::Left),
                (Side::Down, Border::Upper),
                (Side::Left, Border::Right),
            ),
            Side::Back => one_of_four(
                i,
                (Side::Up, Border::Upper),
                (Side::Left, Border::Left),
                (Side::Down, Border::Bottom),
                (Side::Right, Border::Right),
            ),
            Side::Right => one_of_four(
                i,
                (Side::Front, Border::Right),
                (Side::Up, Border::Right),
                (Side::Back, Border::Left),
                (Side::Down, Border::Right),
            ),
            Side::Left => one_of_four(
                i,
                (Side::Front, Border::Left),
                (Side::Down, Border::Left),
                (Side::Back, Border::Right),
                (Side::Up, Border::Left),
            ),
        }
    }

    /// The line on the edge `at`.
    pub open spec fn line_at(self, at: (Side, Border)) -> Line {
        self.face(at.0).line(at.1)
    }

    /// The cube with the line on the edge `at` replaced by `line`.
    pub open spec fn with_line_at(self, at: (Side, Border), line: Line) -> Cube {
        self.with_face(at.0, self.face(at.0).with_line(at.1, line))
    }

    /// The four lines that border the side `side`, in the order of
    /// [`Cube::neighbour`].
    pub open spec fn lines(self, side: Side) -> Seq<Line> {
        Seq::new(4, |i: int| self.line_at(Cube::neighbour(side, i)))
    }

    /// The cube with the four lines that border the side `side` replaced by
    /// `lines`, in the order of [`Cube::neighbour`].
    pub open spec fn with_lines(self, side: Side, lines: Seq<Line>) -> Cube
        recommends
            lines.len() == 4,
    {
        self.with_line_at(Cube::neighbour(side, 0), lines[0]).with_line_at(
            Cube::neighbour(side, 1),
            lines[1],
        ).with_line_at(Cube::neighbour(side, 2), lines[2]).with_line_at(
            Cube::neighbour(side, 3),
            lines[3],
        )
    }

    /// The four lines that border the side `side`, written out.
    pub open spec fn lines_in_full(self, side: Side) -> Seq<Line> {
        match side {
            Side::Up => seq![
                self.front.upper_line(),
                self.left.upper_line(),
                self.back.upper_line(),
                self.right.upper_line(),
            ],
            Side::Down => seq![
                self.front.bottom_line(),
                self.right.bottom_line(),
                self.back.bottom_line(),
                self.left.bottom_line(),
            ],
            Side::Front => seq![
                self.up.bottom_line(),
                self.right.left_line(),
                self.down.upper_line(),
                self.left.right_line(),
            ],
            Side::Back => seq![
                self.up.upper_line(),
                self.left.left_line(),
                self.down.bottom_line(),
                self.right.right_line(),
            ],
            Side::Right => seq![
                self.front.right_line(),
                self.up.right_line(),
                self.back.left_line(),
                self.down.right_line(),
            ],
            Side::Left => seq![
                self.front.left_line(),
                self.down.left_line(),
                self.back.right_line(),
                self.up.left_line(),
            ],
        }
    }

    /// The cube with the four lines that border the side `side` replaced by
    /// `lines`, written out.
    pub open spec fn with_lines_in_full(self, side: Side, lines: Seq<Line>) -> Cube
        recommends
            lines.len() == 4,
    {
        match side {
            Side::Up => Cube {
                front: self.front.with_upper_line(lines[0]),
                left: self.left.with_upper_line(lines[1]),
                back: self.back.with_upper_line(lines[2]),
                right: self.right.with_upper_line(lines[3]),
                ..self
            },
            Side::Down => Cube {
                front: self.front.with_bottom_line(lines[0]),
                right: self.right.with_bottom_line(lines[1]),
                back: self.back.with_bottom_line(lines[2]),
                left: self.left.with_bottom_line(lines[3]),
                ..self
            },
            Side::Front => Cube {
                up: self.up.with_bottom_line(lines[0]),
                right: self.right.with_left_line(lines[1]),
                down: self.down.with_upper_line(lines[2]),
                left: self.left.with_right_line(lines[3]),
                ..self
            },
            Side::Back => Cube {
                up: self.up.with_upper_line(lines[0]),
                left: self.left.with_left_line(lines[1]),
                down: self.down.with_bottom_line(lines[2]),
                right: self.right.with_right_line(lines[3]),
                ..self
            },
            Side::Right => Cube {
                front: self.front.with_right_line(lines[0]),
                up: self.up.with_right_line(lines[1]),
                back: self.back.with_left_line(lines[2]),
                down: self.down.with_right_line(lines[3]),
                ..self
            },
            Side::Left => Cube {
                front: self.front.with_left_line(lines[0]),
                down: self.down.with_left_line(lines[1]),
                back: self.back.with_right_line(lines[2]),
                up: self.up.with_left_line(lines[3]),
                ..self
            },
        }
    }

    /// The cube after a clockwise quarter turn of the side `side`: its face
    /// turns clockwise, and each line around it moves on to the next edge.
    pub open spec fn turned(self, side: Side) -> Cube {
        self.with_face(side, self.face(side).rotated_cw()).with_lines(
            side,
            shifted(self.lines(side), 1),
        )
    }

    /// The cube after a clockwise quarter turn of the side `side`, written
    /// out face by face.
    pub open spec fn turned_in_full(self, side: Side) -> Cube {
        match side {
            Side::Up => Cube {
                up: self.up.rotated_cw(),
                front: self.front.with_upper_line(self.right.upper_line()),
                left: self.left.with_upper_line(self.front.upper_line()),
                back: self.back.with_upper_line(self.left.upper_line()),
                right: self.right.with_upper_line(self.back.upper_line()),
                down: self.down,
            },
            Side::Down => Cube {
                up: self.up,
                front: self.front.with_bottom_line(self.left.bottom_line()),
                left: self.left.with_bottom_line(self.back.bottom_line()),
                back: self.back.with_bottom_line(self.right.bottom_line()),
                right: self.right.with_bottom_line(self.front.bottom_line()),
                down: self.down.rotated_cw(),
            },
            Side::Front => Cube {
                up: self.up.with_bottom_line(self.left.right_line()),
                front: self.front.rotated_cw(),
                left: self.left.with_right_line(self.down.upper_line()),
                back: self.back,
                right: self.right.with_left_line(self.up.bottom_line()),
                down: self.down.with_upper_line(self.right.left_line()),
            },
            Side::Back => Cube {
                up: self.up.with_upper_line(self.right.right_line()),
                front: self.front,
                left: self.left.with_left_line(self.up.upper_line()),
                back: self.back.rotated_cw(),
                right: self.right.with_right_line(self.down.bottom_line()),
                down: self.down.with_bottom_line(self.left.left_line()),
            },
            Side::Right => Cube {
                up: self.up.with_right_line(self.front.right_line()),
                front: self.front.with_right_line(self.down.right_line()),
                left: self.left,
                back: self.back.with_left_line(self.up.right_line()),
                right: self.right.rotated_cw(),
                down: self.down.with_right_line(self.back.left_line()),
            },
            Side::Left => Cube {
                up: self.up.with_left_line(self.back.right_line()),
                front: self.front.with_left_line(self.up.left_line()),
                left: self.left.rotated_cw(),
                back: self.back.with_right_line(self.down.left_line()),
                right: self.right,
                down: self.down.with_left_line(self.front.left_line()),
            },
        }
    }

    /// The cube after a counterclockwise quarter turn of the side `side`:
    /// its face turns counterclockwise, and each line around it moves back
    /// to the edge before.
    pub open spec fn turned_prime(self, side: Side) -> Cube {
        self.with_face(side, self.face(side).rotated_ccw()).with_lines(
            side,
            shifted(self.lines(side), -1),
        )
    }

    /// The cube after a half turn of the side `side`: its face turns
    /// clockwise twice, and each line around it moves to the edge across.
    pub open spec fn turned_twice(self, side: Side) -> Cube {
        self.with_face(side, self.face(side).rotated_cw().rotated_cw()).with_lines(
            side,
            shifted(self.lines(side), 2),
        )
    }

    /// The cube after `quarters` clockwise quarter turns of the side `side`;
    /// a negative number turns it counterclockwise.
    pub open spec fn turned_by(self, side: Side, quarters: int) -> Cube {
        self.with_face(side, self.face(side).rotated_by(quarters)).with_lines(
            side,
            shifted(self.lines(side), quarters),
        )
    }

    /// The cube after the move `mv`.
    pub open spec fn moved(self, mv: Move) -> Cube {
        match mv.ty {
            MoveType::Normal => self.turned(mv.side),
            MoveType::Prime => self.turned_prime(mv.side),
            MoveType::Double => self.turned_twice(mv.side),
        }
    }

    /// The cube after the moves `moves`, carried out from first to last.
    pub open spec fn run(self, moves: Seq<Move>) -> Cube
        decreases moves.len(),
    {
        if moves.len() == 0 {
            self
        } else {
            self.run(moves.drop_last()).moved(moves.last())
        }
    }

    /// No side borders itself: the lines around a side do not depend on the
    /// face of that side.
    pub proof fn lemma_lines_ignore_own_face(self, side: Side, face: Face)
        ensures
            self.with_face(side, face).lines(side) == self.lines(side),
    {
        reveal(Cube::neighbour);
        reveal(Cube::face);
        reveal(Cube::with_face);
        reveal(Face::line);
        assert(self.with_face(side, face).lines(side) =~= self.lines(side));
    }

    /// The face on the side `side`.
    pub fn get_face(&self, side: Side) -> (face: &Face)
        ensures
            *face == self.face(side),
            *face == match side {
                Side::Up => self.up,
                Side::Down => self.down,
                Side::Front => self.front,
                Side::Back => self.back,
                Side::Right => self.right,
                Side::Left => self.left,
            },
    {
        proof {
            reveal(Cube::face);
        }
        match side {
            Side::Up => &self.up,
            Side::Down => &self.down,
            Side::Front => &self.front,
            Side::Back => &self.back,
            Side::Right => &self.right,
            Side::Left => &self.left,
        }
    }

    /// The face on the side `side`, for writing: what the caller leaves in it
    /// becomes that face of the cube, and no other face changes.
    pub fn get_face_mut(&mut self, side: Side) -> (face: &mut Face)
        ensures
            *face == old(self).face(side),
            *final(self) == old(self).with_face(side, *final(face)),
            *face == match side {
                Side::Up => old(self).up,
                Side::Down => old(self).down,
                Side::Front => old(self).front,
                Side::Back => old(self).back,
                Side::Right => old(self).right,
                Side::Left => old(self).left,
            },
            *final(self) == match side {
                Side::Up => (Cube { up: *final(face), ..*old(self) }),
                Side::Down => (Cube { down: *final(face), ..*old(self) }),
                Side::Front => (Cube { front: *final(face), ..*old(self) }),
                Side::Back => (Cube { back: *final(face), ..*old(self) }),
                Side::Right => (Cube { right: *final(face), ..*old(self) }),
                Side::Left => (Cube { left: *final(face), ..*old(self) }),
            },
    {
        proof {
            reveal(Cube::face);
            reveal(Cube::with_face);
        }
        match side {
            Side::Up => &mut self.up,
            Side::Down => &mut self.down,
            Side::Front => &mut self.front,
            Side::Back => &mut self.back,
            Side::Right => &mut self.right,
            Side::Left => &mut self.left,
        }
    }

    /// The four lines around the upper side.
    pub fn get_up_lines(&self) -> (lines: [Line; 4])
        ensures
            lines@ == self.lines(Side::Up),
            lines@ == self.lines_in_full(Side::Up),
    {
        proof {
            reveal(Cube::neighbour);
            reveal(Cube::face);
            reveal(Face::line);
        }
        [
            self.front.get_upper_line(),
            self.left.get_upper_line(),
            self.back.get_upper_line(),
            self.right.get_upper_line(),
        ]
    }

    /// The four lines around the lower side.
    pub fn get_down_lines(&self) -> (lines: [Line; 4])
        ensures
            lines@ == self.lines(Side::Down),
            lines@ == self.lines_in_full(Side::Down),
    {
        proof {
            reveal(Cube::neighbour);
            reveal(Cube::face);
            reveal(Face::line);
        }
        [
            self.front.get_bottom_line(),
            self.right.get_bottom_line(),
            self.back.get_bottom_line(),
            self.left.get_bottom_line(),
        ]
    }

    /// The four lines around the front side.
    pub fn get_front_lines(&self) -> (lines: [Line; 4])
        ensures
            lines@ == self.lines(Side::Front),
            lines@ == self.lines_in_full(Side::Front),
    {
        proof {
            reveal(Cube::neighbour);
            reveal(Cube::face);
            reveal(Face::line);
        }
        [
            self.up.get_bottom_line(),
            self.right.get_left_line(),
            self.down.get_upper_line(),
            self.left.get_right_line(),
        ]
    }

    /// The four lines around the back side.
    pub fn get_back_lines(&self) -> (lines: [Line; 4])
        ensures
            lines@ == self.lines(Side::Back),
            lines@ == self.lines_in_full(Side::Back),
    {
        proof {
            reveal(Cube::neighbour);
            reveal(Cube::face);
            reveal(Face::line);
        }
        [
            self.up.get_upper_line(),
            self.left.get_left_line(),
            self.down.get_bottom_line(),
            self.right.get_right_line(),
        ]
    }

    /// The four lines around the right side.
    pub fn get_right_lines(&self) -> (lines: [Line; 4])
        ensures
            lines@ == self.lines(Side::Right),
            lines@ == self.lines_in_full(Side::Right),
    {
        proof {
            reveal(Cube::neighbour);
            reveal(Cube::face);
            reveal(Face::line);
        }
        [
            self.front.get_right_line(),
            self.up.get_right_line(),
            self.back.get_left_line(),
            self.down.get_right_line(),
        ]
    }

    /// The four lines around the left side.
    pub fn get_left_lines(&self) -> (lines: [Line; 4])
        ensures
            lines@ == self.lines(Side::Left),
            lines@ == self.lines_in_full(Side::Left),
    {
        proof {
            reveal(Cube::neighbour);
            reveal(Cube::face);
            reveal(Face::line);
        }
        [
            self.front.get_left_line(),
            self.down.get_left_line(),
            self.back.get_right_line(),
            self.up.get_left_line(),
        ]
    }

    /// Overwrites the four lines around the upper side and nothing else.
    pub fn set_up_lines(&mut self, lines: [Line; 4])
        ensures
            *final(self) == old(self).with_lines(Side::Up, lines@),
            *final(self) == old(self).with_lines_in_full(Side::Up, lines@),
    {
        proof {
            reveal(Cube::neighbour);
            reveal(Cube::face);
            reveal(Cube::with_face);
            reveal(Face::with_line);
        }
        self.front.set_upper_line(lines[0]);
        self.left.set_upper_line(lines[1]);
        self.back.set_upper_line(lines[2]);
        self.right.set_upper_line(lines[3]);
    }

    /// Overwrites the four lines around the lower side and nothing else.
    pub fn set_down_lines(&mut self, lines: [Line; 4])
        ensures
            *final(self) == old(self).with_lines(Side::Down, lines@),
            *final(self) == old(self).with_lines_in_full(Side::Down, lines@),
    {
        proof {
            reveal(Cube::neighbour);
            reveal(Cube::face);
            reveal(Cube::with_face);
            reveal(Face::with_line);
        }
        self.front.set_bottom_line(lines[0]);
        self.right.set_bottom_line(lines[1]);
        self.back.set_bottom_line(lines[2]);
        self.left.set_bottom_line(lines[3]);
    }

    /// Overwrites the four lines around the front side and nothing else.
    pub fn set_front_lines(&mut self, lines: [Line; 4])
        ensures
            *final(self) == old(self).with_lines(Side::Front, lines@),
            *final(self) == old(self).with_lines_in_full(Side::Front, lines@),
    {
        proof {
            reveal(Cube::neighbour);
            reveal(Cube::face);
            reveal(Cube::with_face);
            reveal(Face::with_line);
        }
        self.up.set_bottom_line(lines[0]);
        self.right.set_left_line(lines[1]);
        self.down.set_upper_line(lines[2]);
        self.left.set_right_line(lines[3]);
    }

    /// Overwrites the four lines around the back side and nothing else.
    pub fn set_back_lines(&mut self, lines: [Line; 4])
        ensures
            *final(self) == old(self).with_lines(Side::Back, lines@),
            *final(self) == old(self).with_lines_in_full(Side::Back, lines@),
    {
        proof {
            reveal(Cube::neighbour);
            reveal(Cube::face);
            reveal(Cube::with_face);
            reveal(Face::with_line);
        }
        self.up.set_upper_line(lines[0]);
        self.left.set_left_line(lines[1]);
        self.down.set_bottom_line(lines[2]);
        self.right.set_right_line(lines[3]);
    }

    /// Overwrites the four lines around the right side and nothing else.
    pub fn set_right_lines(&mut self, lines: [Line; 4])
        ensures
            *final(self) == old(self).with_lines(Side::Right, lines@),
            *final(self) == old(self).with_lines_in_full(Side::Right, lines@),
    {
        proof {
            reveal(Cube::neighbour);
            reveal(Cube::face);
            reveal(Cube::with_face);
            reveal(Face::with_line);
        }
        self.front.set_right_line(lines[0]);
        self.up.set_right_line(lines[1]);
        self.back.set_left_line(lines[2]);
        self.down.set_right_line(lines[3]);
    }

    /// Overwrites the four lines around the left side and nothing else.
    pub fn set_left_lines(&mut self, lines: [Line; 4])
        ensures
            *final(self) == old(self).with_lines(Side::Left, lines@),
            *final(self) == old(self).with_lines_in_full(Side::Left, lines@),
    {
        proof {
            reveal(Cube::neighbour);
            reveal(Cube::face);
            reveal(Cube::with_face);
            reveal(Face::with_line);
        }
        self.front.set_left_line(lines[0]);
        self.down.set_left_line(lines[1]);
        self.back.set_right_line(lines[2]);
        self.up.set_left_line(lines[3]);
    }

    /// The four lines that border the side `side`, in the order in which a
    /// clockwise turn of that side passes them.
    pub fn get_lines(&self, side: Side) -> (lines: [Line; 4])
        ensures
            lines@ == self.lines(side),
            lines@ == self.lines_in_full(side),
    {
        match side {
            Side::Up => self.get_up_lines(),
            Side::Down => self.get_down_lines(),
            Side::Front => self.get_front_lines(),
            Side::Back => self.get_back_lines(),
            Side::Right => self.get_right_lines(),
            Side::Left => self.get_left_lines(),
        }
    }

    /// Overwrites the four lines that border the side `side`, in the same
    /// order, and nothing else.
    pub fn set_lines(&mut self, side: Side, lines: [Line; 4])
        ensures
            *final(self) == old(self).with_lines(side, lines@),
            *final(self) == old(self).with_lines_in_full(side, lines@),
    {
        match side {
            Side::Up => self.set_up_lines(lines),
            Side::Down => self.set_down_lines(lines),
            Side::Front => self.set_front_lines(lines),
            Side::Back => self.set_back_lines(lines),
            Side::Right => self.set_right_lines(lines),
            Side::Left => self.set_left_lines(lines),
        }
    }

    /// Turns the side `side` a quarter turn clockwise.
    pub fn turn_side(&mut self, side: Side)
        ensures
            *final(self) == old(self).turned(side),
            *final(self) == old(self).turned_in_full(side),
    {
        self.get_face_mut(side).rot_clockwise();
        proof {
            old(self).lemma_lines_ignore_own_face(side, old(self).face(side).rotated_cw());
            old(self).lemma_turned_in_full(side);
        }

        let lines = rotate_right(self.get_lines(side));
        self.set_lines(side, lines);
    }

    /// Turns the side `side` a quarter turn counterclockwise.
    pub fn turn_side_prime(&mut self, side: Side)
        ensures
            *final(self) == old(self).turned_prime(side),
            *final(self) == old(self).turned_in_full(side).turned_in_full(side).turned_in_full(
                side,
            ),
    {
        self.get_face_mut(side).rot_counterclockwise();
        proof {
            old(self).lemma_lines_ignore_own_face(side, old(self).face(side).rotated_ccw());
            old(self).lemma_prime_is_three_turns(side);
            old(self).lemma_turned_in_full(side);
            old(self).turned(side).lemma_turned_in_full(side);
            old(self).turned(side).turned(side).lemma_turned_in_full(side);
        }

        let lines = rotate_left(self.get_lines(side));
        self.set_lines(side, lines);
    }

    /// Turns the side `side` a half turn.
    pub fn turn_side_twice(&mut self, side: Side)
        ensures
            *final(self) == old(self).turned_twice(side),
            *final(self) == old(self).turned_in_full(side).turned_in_full(side),
    {
        let face = self.get_face_mut(side);
        face.rot_clockwise();
        face.rot_clockwise();

        let lines = self.get_lines(side);
        proof {
            old(self).lemma_lines_ignore_own_face(
                side,
                old(self).face(side).rotated_cw().rotated_cw(),
            );
            lemma_shifted_twice(lines@);
            old(self).lemma_two_turns_are_half(side);
            old(self).lemma_turned_in_full(side);
            old(self).turned(side).lemma_turned_in_full(side);
        }
        let lines = rotate_right(rotate_right(lines));
        self.set_lines(side, lines);
    }

    /// Carries out one move.
    pub fn execute_move(&mut self, mv: Move)
        ensures
            *final(self) == old(self).moved(mv),
            *final(self) == match mv.ty {
                MoveType::Normal => old(self).turned_in_full(mv.side),
                MoveType::Double => old(self).turned_in_full(mv.side).turned_in_full(mv.side),
                MoveType::Prime => old(self).turned_in_full(mv.side).turned_in_full(
                    mv.side,
                ).turned_in_full(mv.side),
            },
    {
        match mv.ty {
            MoveType::Normal => self.turn_side(mv.side),
            MoveType::Prime => self.turn_side_prime(mv.side),
            MoveType::Double => self.turn_side_twice(mv.side),
        }
    }

    /// Carries out the moves of `alg` one after another, from first to last.
    pub fn execute_algorithm(&mut self, alg: Algorithm)
        ensures
            *final(self) == old(self).run(alg@),
    {
        let n = alg.moves.len();
        let mut i: usize = 0;
        while i < n
            invariant
                n == alg.moves.len(),
                i <= n,
                *self == old(self).run(alg@.take(i as int)),
            decreases n - i,
        {
            let mv = alg.moves[i];
            proof {
                assert(alg@.take(i + 1).drop_last() =~= alg@.take(i as int));
                assert(alg@.take(i + 1).last() == mv);
            }
            self.execute_move(mv);
            i += 1;
        }
        proof {
            assert(alg@.take(n as int) =~= alg@);
        }
    }
}

impl Default for Cube {
    /// The solved cube: white up, green in front, orange to the left, blue
    /// at the back, red to the right, yellow below.
    fn default() -> (cube: Cube)
        ensures
            cube == Cube::solved(),
    {
        Cube {
            up: Face::fill(Colour::White),
            front: Face::fill(Colour::Green),
            left: Face::fill(Colour::Orange),
            back: Face::fill(Colour::Blue),
            right: Face::fill(Colour::Red),
            down: Face::fill(Colour::Yellow),
        }
    }
}

} // verus!

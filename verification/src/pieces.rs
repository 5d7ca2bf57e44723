//! The pieces of the cube: eight corners of three cells each and twelve
//! edges of two, and the proof that every turn moves them as wholes.

use vstd::prelude::*;
use crate::algorithm::Side;
use crate::colour::Colour;
use crate::cube::{one_of_four, Cube};
use crate::face::Face;

verus! {

/// One of the eight places where three sides meet.
#[derive(Copy, Clone, PartialEq, Eq, Debug, Structural)]
pub enum Corner {
    UpFrontRight,
    UpFrontLeft,
    UpBackLeft,
    UpBackRight,
    DownFrontRight,
    DownFrontLeft,
    DownBackLeft,
    DownBackRight,
}

/// One of the twelve places where two sides meet.
#[derive(Copy, Clone, PartialEq, Eq, Debug, Structural)]
pub enum Edge {
    UpFront,
    UpLeft,
    UpBack,
    UpRight,
    DownFront,
    DownLeft,
    DownBack,
    DownRight,
    FrontRight,
    FrontLeft,
    BackLeft,
    BackRight,
}

/// Whether two corner pieces show the same three colours in the same
/// clockwise order, wherever the reading starts.
pub open spec fn same_corner(a: (Colour, Colour, Colour), b: (Colour, Colour, Colour)) -> bool {
    a == b || a == (b.1, b.2, b.0) || a == (b.2, b.0, b.1)
}

/// Whether two edge pieces show the same two colours.
pub open spec fn same_edge(a: (Colour, Colour), b: (Colour, Colour)) -> bool {
    a == b || a == (b.1, b.0)
}

impl Cube {
    /// The three cells that meet at the corner `at`, read clockwise around
    /// the corner as seen from outside the cube, beginning on the upper or
    /// lower face.
    pub open spec fn corner(self, at: Corner) -> (Colour, Colour, Colour) {
        match at {
            Corner::UpFrontRight => (self.up.br, self.right.ul, self.front.ur),
            Corner::UpFrontLeft => (self.up.bl, self.front.ul, self.left.ur),
            Corner::UpBackLeft => (self.up.ul, self.left.ul, self.back.ur),
            Corner::UpBackRight => (self.up.ur, self.back.ul, self.right.ur),
            Corner::DownFrontRight => (self.down.ur, self.front.br, self.right.bl),
            Corner::DownFrontLeft => (self.down.ul, self.left.br, self.front.bl),
            Corner::DownBackLeft => (self.down.bl, self.back.br, self.left.bl),
            Corner::DownBackRight => (self.down.br, self.right.br, self.back.bl),
        }
    }

    /// The two cells that meet at the edge `at`.
    pub open spec fn edge(self, at: Edge) -> (Colour, Colour) {
        match at {
            Edge::UpFront => (self.up.bm, self.front.um),
            Edge::UpLeft => (self.up.ml, self.left.um),
            Edge::UpBack => (self.up.um, self.back.um),
            Edge::UpRight => (self.up.mr, self.right.um),
            Edge::DownFront => (self.down.um, self.front.bm),
            Edge::DownLeft => (self.down.ml, self.left.bm),
            Edge::DownBack => (self.down.bm, self.back.bm),
            Edge::DownRight => (self.down.mr, self.right.bm),
            Edge::FrontRight => (self.front.mr, self.right.ml),
            Edge::FrontLeft => (self.front.ml, self.left.mr),
            Edge::BackLeft => (self.back.mr, self.left.ml),
            Edge::BackRight => (self.back.ml, self.right.mr),
        }
    }

    /// The corner number `i` around the side `side`, counting from zero in
    /// the order in which a clockwise turn of `side` passes them: the corner
    /// where the edges number `i` and `i + 1` of [`Cube::neighbour`] meet.
    pub open spec fn corner_around(side: Side, i: int) -> Corner {
        match side {
            Side::Up => one_of_four(
                i,
                Corner::UpFrontLeft,
                Corner::UpBackLeft,
                Corner::UpBackRight,
                Corner::UpFrontRight,
            ),
            Side::Down => one_of_four(
                i,
                Corner::DownFrontRight,
                Corner::DownBackRight,
                Corner::DownBackLeft,
                Corner::DownFrontLeft,
            ),
            Side::Front => one_of_four(
                i,
                Corner::UpFrontRight,
                Corner::DownFrontRight,
                Corner::DownFrontLeft,
                Corner::UpFrontLeft,
            ),
            Side::Back => one_of_four(
                i,
                Corner::UpBackLeft,
                Corner::DownBackLeft,
                Corner::DownBackRight,
                Corner::UpBackRight,
            ),
            Side::Right => one_of_four(
                i,
                Corner::UpFrontRight,
                Corner::UpBackRight,
                Corner::DownBackRight,
                Corner::DownFrontRight,
            ),
            Side::Left => one_of_four(
                i,
                Corner::DownFrontLeft,
                Corner::DownBackLeft,
                Corner::UpBackLeft,
                Corner::UpFrontLeft,
            ),
        }
    }

    /// The edge number `i` around the side `side`, counting from zero in
    /// the order in which a clockwise turn of `side` passes them: the edge
    /// on which the line number `i` of [`Cube::neighbour`] lies.
    pub open spec fn edge_around(side: Side, i: int) -> Edge {
        match side {
            Side::Up => one_of_four(i, Edge::UpFront, Edge::UpLeft, Edge::UpBack, Edge::UpRight),
            Side::Down => one_of_four(
                i,
                Edge::DownFront,
                Edge::DownRight,
                Edge::DownBack,
                Edge::DownLeft,
            ),
            Side::Front => one_of_four(
                i,
                Edge::UpFront,
                Edge::FrontRight,
                Edge::DownFront,
                Edge::FrontLeft,
            ),
            Side::Back => one_of_four(
                i,
                Edge::UpBack,
                Edge::BackLeft,
                Edge::DownBack,
                Edge::BackRight,
            ),
            Side::Right => one_of_four(
                i,
                Edge::FrontRight,
                Edge::UpRight,
                Edge::BackRight,
                Edge::DownRight,
            ),
            Side::Left => one_of_four(
                i,
                Edge::FrontLeft,
                Edge::DownLeft,
                Edge::BackLeft,
                Edge::UpLeft,
            ),
        }
    }

    /// The corner from which a clockwise quarter turn of `side` brings the
    /// piece that then stands at `at`: the corner before it around the
    /// side, or `at` itself where the side does not reach.
    pub open spec fn corner_before(side: Side, at: Corner) -> Corner {
        if at == Cube::corner_around(side, 0) {
            Cube::corner_around(side, 3)
        } else if at == Cube::corner_around(side, 1) {
            Cube::corner_around(side, 0)
        } else if at == Cube::corner_around(side, 2) {
            Cube::corner_around(side, 1)
        } else if at == Cube::corner_around(side, 3) {
            Cube::corner_around(side, 2)
        } else {
            at
        }
    }

    /// The edge from which a clockwise quarter turn of `side` brings the
    /// piece that then stands at `at`: the edge before it around the side,
    /// or `at` itself where the side does not reach.
    pub open spec fn edge_before(side: Side, at: Edge) -> Edge {
        if at == Cube::edge_around(side, 0) {
            Cube::edge_around(side, 3)
        } else if at == Cube::edge_around(side, 1) {
            Cube::edge_around(side, 0)
        } else if at == Cube::edge_around(side, 2) {
            Cube::edge_around(side, 1)
        } else if at == Cube::edge_around(side, 3) {
            Cube::edge_around(side, 2)
        } else {
            at
        }
    }

    /// The pieces after a clockwise quarter turn of the upper side.
    proof fn lemma_pieces_up(self, corner: Corner, edge: Edge)
        ensures
            same_corner(
                self.turned_in_full(Side::Up).corner(corner),
                self.corner(Cube::corner_before(Side::Up, corner)),
            ),
            same_edge(
                self.turned_in_full(Side::Up).edge(edge),
                self.edge(Cube::edge_before(Side::Up, edge)),
            ),
    {
    }

    /// The pieces after a clockwise quarter turn of the lower side.
    proof fn lemma_pieces_down(self, corner: Corner, edge: Edge)
        ensures
            same_corner(
                self.turned_in_full(Side::Down).corner(corner),
                self.corner(Cube::corner_before(Side::Down, corner)),
            ),
            same_edge(
                self.turned_in_full(Side::Down).edge(edge),
                self.edge(Cube::edge_before(Side::Down, edge)),
            ),
    {
    }

    /// The pieces after a clockwise quarter turn of the front side.
    proof fn lemma_pieces_front(self, corner: Corner, edge: Edge)
        ensures
            same_corner(
                self.turned_in_full(Side::Front).corner(corner),
                self.corner(Cube::corner_before(Side::Front, corner)),
            ),
            same_edge(
                self.turned_in_full(Side::Front).edge(edge),
                self.edge(Cube::edge_before(Side::Front, edge)),
            ),
    {
    }

    /// The pieces after a clockwise quarter turn of the back side.
    proof fn lemma_pieces_back(self, corner: Corner, edge: Edge)
        ensures
            same_corner(
                self.turned_in_full(Side::Back).corner(corner),
                self.corner(Cube::corner_before(Side::Back, corner)),
            ),
            same_edge(
                self.turned_in_full(Side::Back).edge(edge),
                self.edge(Cube::edge_before(Side::Back, edge)),
            ),
    {
    }

    /// The pieces after a clockwise quarter turn of the right side.
    proof fn lemma_pieces_right(self, corner: Corner, edge: Edge)
        ensures
            same_corner(
                self.turned_in_full(Side::Right).corner(corner),
                self.corner(Cube::corner_before(Side::Right, corner)),
            ),
            same_edge(
                self.turned_in_full(Side::Right).edge(edge),
                self.edge(Cube::edge_before(Side::Right, edge)),
            ),
    {
    }

    /// The pieces after a clockwise quarter turn of the left side.
    proof fn lemma_pieces_left(self, corner: Corner, edge: Edge)
        ensures
            same_corner(
                self.turned_in_full(Side::Left).corner(corner),
                self.corner(Cube::corner_before(Side::Left, corner)),
            ),
            same_edge(
                self.turned_in_full(Side::Left).edge(edge),
                self.edge(Cube::edge_before(Side::Left, edge)),
            ),
    {
    }

    /// A clockwise quarter turn is a rigid motion of the pieces. The three
    /// cells of every corner arrive together, in the same clockwise order,
    /// from the corner before it around the side, and the two cells of
    /// every edge from the edge before it; pieces that the side does not
    /// reach stay as they are.
    pub proof fn lemma_turn_moves_pieces(self, side: Side, corner: Corner, edge: Edge)
        ensures
            same_corner(
                self.turned(side).corner(corner),
                self.corner(Cube::corner_before(side, corner)),
            ),
            same_edge(self.turned(side).edge(edge), self.edge(Cube::edge_before(side, edge))),
    {
        self.lemma_turned_in_full(side);
        match side {
            Side::Up => self.lemma_pieces_up(corner, edge),
            Side::Down => self.lemma_pieces_down(corner, edge),
            Side::Front => self.lemma_pieces_front(corner, edge),
            Side::Back => self.lemma_pieces_back(corner, edge),
            Side::Right => self.lemma_pieces_right(corner, edge),
            Side::Left => self.lemma_pieces_left(corner, edge),
        }
    }

    /// A counterclockwise quarter turn is the same motion backwards: every
    /// piece goes, whole, to the place before its own around the side.
    pub proof fn lemma_prime_moves_pieces(self, side: Side, corner: Corner, edge: Edge)
        ensures
            same_corner(
                self.turned_prime(side).corner(Cube::corner_before(side, corner)),
                self.corner(corner),
            ),
            same_edge(
                self.turned_prime(side).edge(Cube::edge_before(side, edge)),
                self.edge(edge),
            ),
    {
        self.turned_prime(side).lemma_turn_moves_pieces(side, corner, edge);
        self.lemma_turn_inverse(side);
    }

    /// A half turn brings every piece, whole, from two places before its
    /// own around the side.
    pub proof fn lemma_twice_moves_pieces(self, side: Side, corner: Corner, edge: Edge)
        ensures
            same_corner(
                self.turned_twice(side).corner(corner),
                self.corner(Cube::corner_before(side, Cube::corner_before(side, corner))),
            ),
            same_edge(
                self.turned_twice(side).edge(edge),
                self.edge(Cube::edge_before(side, Cube::edge_before(side, edge))),
            ),
    {
        self.lemma_two_turns_are_half(side);
        self.turned(side).lemma_turn_moves_pieces(side, corner, edge);
        self.lemma_turn_moves_pieces(
            side,
            Cube::corner_before(side, corner),
            Cube::edge_before(side, edge),
        );
    }

    /// No turn moves a centre.
    pub proof fn lemma_turn_keeps_centres(self, side: Side, quarters: int, other: Side)
        ensures
            self.turned_by(side, quarters).face(other).mm == self.face(other).mm,
    {
        self.lemma_turned_by_faces(side, quarters, other);
        self.face(other).lemma_centre_stays(
            quarters,
            Cube::neighbour(side, 0).1,
            self.line_at(Cube::neighbour(side, (0 - quarters) % 4)),
        );
        self.face(other).lemma_centre_stays(
            quarters,
            Cube::neighbour(side, 1).1,
            self.line_at(Cube::neighbour(side, (1 - quarters) % 4)),
        );
        self.face(other).lemma_centre_stays(
            quarters,
            Cube::neighbour(side, 2).1,
            self.line_at(Cube::neighbour(side, (2 - quarters) % 4)),
        );
        self.face(other).lemma_centre_stays(
            quarters,
            Cube::neighbour(side, 3).1,
            self.line_at(Cube::neighbour(side, (3 - quarters) % 4)),
        );
    }
}

} // verus!

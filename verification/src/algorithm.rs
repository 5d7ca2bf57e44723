//! Turn notation: which side turns, in which way, and sequences of such
//! moves written as text (`R U R' U'`).

use vstd::prelude::*;
use vstd::string::StrSliceExecFns;
use crate::text::{is_whitespace, is_space, lemma_first_word, lemma_words_after_space, words};

verus! {

/// How far and in which direction a side turns.
#[derive(Copy, Clone, PartialEq, Eq, Debug, Structural)]
pub enum MoveType {
    /// A quarter turn clockwise, written with the side's letter alone.
    Normal,
    /// A quarter turn counterclockwise, written with a trailing `'`.
    Prime,
    /// A half turn, written with a trailing `2`.
    Double,
}

/// One of the six sides of the cube.
#[derive(Copy, Clone, PartialEq, Eq, Debug, Structural)]
pub enum Side {
    Up,
    Down,
    Right,
    Left,
    Front,
    Back,
}

/// One turn of one side.
#[derive(Copy, Clone, PartialEq, Eq, Debug, Structural)]
pub struct Move {
    pub side: Side,
    pub ty: MoveType,
}

/// A sequence of moves, carried out from first to last.
#[derive(Clone, PartialEq, Eq, Debug)]
pub struct Algorithm {
    pub moves: Vec<Move>,
}

impl View for Algorithm {
    type V = Seq<Move>;

    open spec fn view(&self) -> Seq<Move> {
        self.moves@
    }
}

impl Side {
    /// The side that the letter `letter` stands for, if any: the capital
    /// initial of its name.
    pub open spec fn from_letter(letter: char) -> Option<Side> {
        if letter == 'U' {
            Some(Side::Up)
        } else if letter == 'D' {
            Some(Side::Down)
        } else if letter == 'R' {
            Some(Side::Right)
        } else if letter == 'L' {
            Some(Side::Left)
        } else if letter == 'F' {
            Some(Side::Front)
        } else if letter == 'B' {
            Some(Side::Back)
        } else {
            None
        }
    }

    /// The letter that stands for the side: the capital initial of its
    /// name.
    pub open spec fn letter(self) -> char {
        match self {
            Side::Up => 'U',
            Side::Down => 'D',
            Side::Right => 'R',
            Side::Left => 'L',
            Side::Front => 'F',
            Side::Back => 'B',
        }
    }

    /// The side across the cube from this one.
    pub open spec fn opposite(self) -> Side {
        match self {
            Side::Up => Side::Down,
            Side::Down => Side::Up,
            Side::Right => Side::Left,
            Side::Left => Side::Right,
            Side::Front => Side::Back,
            Side::Back => Side::Front,
        }
    }
}

impl MoveType {
    /// The kind of turn that the text `modifier` behind a side's letter
    /// stands for, if any: nothing for a normal turn, `'` for a prime turn,
    /// `2` for a double turn.
    pub open spec fn from_modifier(modifier: Seq<char>) -> Option<MoveType> {
        if modifier.len() == 0 {
            Some(MoveType::Normal)
        } else if modifier.len() == 1 && modifier[0] == '\'' {
            Some(MoveType::Prime)
        } else if modifier.len() == 1 && modifier[0] == '2' {
            Some(MoveType::Double)
        } else {
            None
        }
    }

    /// The text that stands for the kind of turn behind a side's letter.
    pub open spec fn modifier(self) -> Seq<char> {
        match self {
            MoveType::Normal => Seq::empty(),
            MoveType::Prime => seq!['\''],
            MoveType::Double => seq!['2'],
        }
    }

    /// The turn counted in clockwise quarter turns.
    pub open spec fn quarters(self) -> int {
        match self {
            MoveType::Normal => 1,
            MoveType::Prime => -1,
            MoveType::Double => 2,
        }
    }

    /// The turn that undoes this one.
    pub open spec fn inverse(self) -> MoveType {
        match self {
            MoveType::Normal => MoveType::Prime,
            MoveType::Prime => MoveType::Normal,
            MoveType::Double => MoveType::Double,
        }
    }
}

impl Move {
    /// The move that undoes this one: the same side, turned back.
    pub open spec fn inverse(self) -> Move {
        Move { side: self.side, ty: self.ty.inverse() }
    }

    /// The move in writing: the letter of its side, and behind it what
    /// stands for its kind.
    pub open spec fn notation(self) -> Seq<char> {
        seq![self.side.letter()] + self.ty.modifier()
    }

    /// Whether `token` fails to name a side: it is empty, or its first
    /// character is none of `U`, `D`, `R`, `L`, `F`, `B`.
    pub open spec fn unknown_side(token: Seq<char>) -> bool {
        token.len() == 0 || Side::from_letter(token[0]) is None
    }

    /// Whether what follows the first character of `token` fails to name a
    /// kind of turn: it is neither nothing nor `'` nor `2`.
    pub open spec fn unknown_modifier(token: Seq<char>) -> bool {
        token.len() > 0 && MoveType::from_modifier(token.skip(1)) is None
    }

    /// The move that `token` stands for, if any: the letter of a side, and
    /// behind it nothing, `'` or `2`.
    pub open spec fn parsed(token: Seq<char>) -> Option<Move> {
        if Move::unknown_side(token) || Move::unknown_modifier(token) {
            None
        } else {
            Some(
                Move {
                    side: Side::from_letter(token[0])->0,
                    ty: MoveType::from_modifier(token.skip(1))->0,
                },
            )
        }
    }

    /// Creates the move that turns `side` as `ty` says.
    pub fn new(side: Side, ty: MoveType) -> (mv: Move)
        ensures
            mv.side == side,
            mv.ty == ty,
    {
        Move { side, ty }
    }

    /// Reads one move from its notation. Gives `None` for any text that is
    /// not the letter of a side with nothing, `'` or `2` behind it.
    pub fn parse(source: &str) -> (parsed: Option<Move>)
        ensures
            parsed == Move::parsed(source@),
    {
        let n = source.unicode_len();
        if n == 0 || n > 2 {
            return None;
        }
        let letter = source.get_char(0);
        let side = if letter == 'U' {
            Side::Up
        } else if letter == 'D' {
            Side::Down
        } else if letter == 'R' {
            Side::Right
        } else if letter == 'L' {
            Side::Left
        } else if letter == 'F' {
            Side::Front
        } else if letter == 'B' {
            Side::Back
        } else {
            return None;
        };
        if n == 1 {
            return Some(Move { side, ty: MoveType::Normal });
        }
        let modifier = source.get_char(1);
        assert(source@.skip(1)[0] == modifier);
        if modifier == '\'' {
            Some(Move { side, ty: MoveType::Prime })
        } else if modifier == '2' {
            Some(Move { side, ty: MoveType::Double })
        } else {
            None
        }
    }
}

impl Move {
    /// Reading a move back from its notation gives the move.
    pub proof fn lemma_notation_is_read_back(self)
        ensures
            Move::parsed(self.notation()) == Some(self),
    {
        assert(self.notation().skip(1) =~= self.ty.modifier());
    }

    /// Only its own notation stands for a move: no move can be written in
    /// two ways.
    pub proof fn lemma_only_notation_is_read(self, token: Seq<char>)
        requires
            Move::parsed(token) == Some(self),
        ensures
            token == self.notation(),
    {
        assert(token =~= seq![token[0]] + token.skip(1));
        assert(token.skip(1) =~= self.ty.modifier());
    }

    /// A token is refused for an unknown side or for an unknown modifier,
    /// and for nothing else.
    pub proof fn lemma_refused_tokens(token: Seq<char>)
        ensures
            Move::parsed(token) is None <==> Move::unknown_side(token) || Move::unknown_modifier(
                token,
            ),
            token.len() > 2 ==> Move::parsed(token) is None,
    {
    }
}

impl Algorithm {
    /// The moves that the words `tokens` stand for, if every one of them
    /// stands for a move.
    pub open spec fn parsed_words(tokens: Seq<Seq<char>>) -> Option<Seq<Move>> {
        if forall|i: int| 0 <= i < tokens.len() ==> (#[trigger] Move::parsed(tokens[i])) is Some {
            Some(Seq::new(tokens.len(), |i: int| Move::parsed(tokens[i])->0))
        } else {
            None
        }
    }

    /// The moves that the text `source` stands for: one for each of its
    /// words, in order, if every word stands for a move.
    pub open spec fn parsed(source: Seq<char>) -> Option<Seq<Move>> {
        Algorithm::parsed_words(words(source))
    }

    /// The moves `moves` in writing: the notation of each, with one blank
    /// between one move and the next.
    pub open spec fn notation(moves: Seq<Move>) -> Seq<char>
        decreases moves.len(),
    {
        if moves.len() == 0 {
            Seq::empty()
        } else if moves.len() == 1 {
            moves[0].notation()
        } else {
            moves[0].notation() + seq![' '] + Algorithm::notation(moves.drop_first())
        }
    }

    /// Reads a sequence of moves from its notation: moves separated by
    /// white space. Gives `None` if any word of the text is not a move, and
    /// the empty algorithm for a text without words.
    pub fn parse(source: &str) -> (parsed: Option<Algorithm>)
        ensures
            match parsed {
                Some(alg) => Algorithm::parsed(source@) == Some(alg@),
                None => Algorithm::parsed(source@) is None,
            },
    {
        let n = source.unicode_len();
        let mut moves: Vec<Move> = Vec::new();
        let ghost mut done: Seq<Seq<char>> = Seq::empty();
        let mut i: usize = 0;
        proof {
            assert(source@.skip(0) =~= source@);
            assert(done + words(source@) =~= words(source@));
        }
        while i < n
            invariant
                n == source@.len(),
                i <= n,
                words(source@) == done + words(source@.skip(i as int)),
                moves@.len() == done.len(),
                forall|k: int| 0 <= k < done.len() ==> Move::parsed(#[trigger] done[k]) == Some(
                    moves@[k],
                ),
            decreases n - i,
        {
            let ghost rest = source@.skip(i as int);
            if is_whitespace(source.get_char(i)) {
                proof {
                    lemma_words_after_space(rest);
                    assert(rest.skip(1) =~= source@.skip(i + 1));
                }
                i += 1;
            } else {
                let start = i;
                i += 1;
                while i < n && !is_whitespace(source.get_char(i))
                    invariant
                        n == source@.len(),
                        start < i <= n,
                        forall|k: int| start <= k < i ==> !is_space(#[trigger] source@[k]),
                    decreases n - i,
                {
                    i += 1;
                }
                let token = source.substring_char(start, i);
                proof {
                    assert forall|k: int| 0 <= k < i - start implies !is_space(
                        #[trigger] rest[k],
                    ) by {
                        assert(rest[k] == source@[start + k]);
                    }
                    lemma_first_word(rest, i - start);
                    assert(rest.take(i - start) =~= token@);
                    assert(rest.skip(i - start) =~= source@.skip(i as int));
                    assert(words(source@) =~= done.push(token@) + words(source@.skip(i as int)));
                }
                match Move::parse(token) {
                    Some(mv) => {
                        moves.push(mv);
                        proof {
                            done = done.push(token@);
                        }
                    },
                    None => {
                        proof {
                            assert(words(source@)[done.len() as int] == token@);
                        }
                        return None;
                    },
                }
            }
        }
        proof {
            assert(source@.skip(n as int) =~= Seq::<char>::empty());
            assert(words(source@) =~= done);
            assert(moves@ =~= Algorithm::parsed_words(done)->0);
        }
        Some(Algorithm { moves })
    }

    /// Creates the algorithm that carries out `moves` in order.
    pub fn new(moves: Vec<Move>) -> (alg: Algorithm)
        ensures
            alg@ == moves@,
            alg.moves == moves,
    {
        Algorithm { moves }
    }

    /// The words of a sequence of moves in writing are the notations of the
    /// moves.
    pub proof fn lemma_notation_words(moves: Seq<Move>)
        ensures
            words(Algorithm::notation(moves)) == Seq::new(
                moves.len(),
                |i: int| moves[i].notation(),
            ),
        decreases moves.len(),
    {
        let text = Algorithm::notation(moves);
        let expected = Seq::new(moves.len(), |i: int| moves[i].notation());
        if moves.len() == 0 {
            assert(words(text) =~= expected);
        } else {
            let first = moves[0].notation();
            let n = first.len() as int;
            let rest = moves.drop_first();
            assert(0 < n <= 2);
            assert forall|i: int| 0 <= i < n implies !is_space(#[trigger] text[i]) by {
                assert(text[i] == first[i]);
            }
            assert(text.take(n) =~= first);
            if moves.len() == 1 {
                assert(text.skip(n) =~= Seq::<char>::empty());
                lemma_first_word(text, n);
                assert(words(text) =~= expected);
            } else {
                let tail = text.skip(n);
                assert(tail =~= seq![' '] + Algorithm::notation(rest));
                assert(text[n] == ' ');
                lemma_first_word(text, n);
                lemma_words_after_space(tail);
                assert(tail.skip(1) =~= Algorithm::notation(rest));
                Algorithm::lemma_notation_words(rest);
                assert(words(text) =~= expected);
            }
        }
    }

    /// Reading a sequence of moves back from its notation gives the moves.
    pub proof fn lemma_notation_is_read_back(moves: Seq<Move>)
        ensures
            Algorithm::parsed(Algorithm::notation(moves)) == Some(moves),
    {
        Algorithm::lemma_notation_words(moves);
        let tokens = words(Algorithm::notation(moves));
        assert forall|i: int| 0 <= i < tokens.len() implies (#[trigger] Move::parsed(
            tokens[i],
        )) == Some(moves[i]) by {
            moves[i].lemma_notation_is_read_back();
        }
        assert(Algorithm::parsed_words(tokens)->0 =~= moves);
    }
}

} // verus!

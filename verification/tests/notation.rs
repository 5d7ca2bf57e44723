use rubik::algorithm::MoveType::{Double, Normal, Prime};
use rubik::algorithm::Side::{Back, Down, Front, Left, Right, Up};
use rubik::algorithm::{Algorithm, Move, MoveType, Side};
use rubik::text::is_whitespace;

#[test]
pub fn algoritm_parsing() {
    let expected = Algorithm::new(vec![
        Move::new(Right, Normal),
        Move::new(Up, Normal),
        Move::new(Right, Prime),
        Move::new(Up, Prime),
    ]);

    let parsed = Algorithm::parse("R U R' U'");

    assert_eq!(parsed, Some(expected));
}

#[test]
fn move_new_keeps_its_parts() {
    let mv = Move::new(Back, Double);
    assert_eq!(mv.side, Back);
    assert_eq!(mv.ty, Double);
    assert_eq!(mv, Move { side: Side::Back, ty: MoveType::Double });
}

#[test]
fn algorithm_new_keeps_its_moves() {
    let moves = vec![Move::new(Left, Prime), Move::new(Down, Normal)];
    let alg = Algorithm::new(moves.clone());
    assert_eq!(alg.moves, moves);
    assert_eq!(Algorithm::new(Vec::new()).moves.len(), 0);
}

#[test]
fn every_side_letter_parses() {
    assert_eq!(Move::parse("U"), Some(Move::new(Up, Normal)));
    assert_eq!(Move::parse("D"), Some(Move::new(Down, Normal)));
    assert_eq!(Move::parse("R"), Some(Move::new(Right, Normal)));
    assert_eq!(Move::parse("L"), Some(Move::new(Left, Normal)));
    assert_eq!(Move::parse("F"), Some(Move::new(Front, Normal)));
    assert_eq!(Move::parse("B"), Some(Move::new(Back, Normal)));
}

#[test]
fn every_modifier_parses() {
    assert_eq!(Move::parse("F"), Some(Move::new(Front, Normal)));
    assert_eq!(Move::parse("F'"), Some(Move::new(Front, Prime)));
    assert_eq!(Move::parse("F2"), Some(Move::new(Front, Double)));
    assert_eq!(Move::parse("D'"), Some(Move::new(Down, Prime)));
    assert_eq!(Move::parse("L2"), Some(Move::new(Left, Double)));
}

#[test]
fn unknown_side_is_refused() {
    assert_eq!(Move::parse("X"), None);
    assert_eq!(Move::parse(""), None);
    assert_eq!(Move::parse("u"), None);
    assert_eq!(Move::parse("r'"), None);
    assert_eq!(Move::parse("'"), None);
    assert_eq!(Move::parse("2R"), None);
    assert_eq!(Move::parse(" R"), None);
    assert_eq!(Move::parse("É"), None);
}

#[test]
fn unknown_modifier_is_refused() {
    assert_eq!(Move::parse("R3"), None);
    assert_eq!(Move::parse("RU"), None);
    assert_eq!(Move::parse("R "), None);
    assert_eq!(Move::parse("R`"), None);
    assert_eq!(Move::parse("R’"), None);
}

#[test]
fn longer_tokens_are_refused() {
    assert_eq!(Move::parse("R2'"), None);
    assert_eq!(Move::parse("R''"), None);
    assert_eq!(Move::parse("R'U"), None);
    assert_eq!(Move::parse("U22"), None);
}

#[test]
fn parse_fails_on_unknown_tokens() {
    assert_eq!(Algorithm::parse("X"), None);
    assert_eq!(Algorithm::parse("R3"), None);
}

#[test]
fn one_bad_token_fails_the_whole_parse() {
    assert_eq!(Algorithm::parse("R U X U'"), None);
    assert_eq!(Algorithm::parse("X R U"), None);
    assert_eq!(Algorithm::parse("R U R3"), None);
    assert_eq!(Algorithm::parse("RU"), None);
    assert_eq!(Algorithm::parse("R,U"), None);
}

#[test]
fn text_without_words_is_the_empty_algorithm() {
    assert_eq!(Algorithm::parse(""), Some(Algorithm::new(vec![])));
    assert_eq!(Algorithm::parse("   "), Some(Algorithm::new(vec![])));
    assert_eq!(Algorithm::parse("\t\n"), Some(Algorithm::new(vec![])));
}

#[test]
fn any_white_space_separates_moves() {
    let expected = Some(Algorithm::new(vec![
        Move::new(Front, Double),
        Move::new(Back, Prime),
        Move::new(Down, Normal),
    ]));
    assert_eq!(Algorithm::parse("F2 B' D"), expected);
    assert_eq!(Algorithm::parse("  F2   B'  D  "), expected);
    assert_eq!(Algorithm::parse("F2\tB'\nD"), expected);
    assert_eq!(Algorithm::parse("\r\nF2\u{b}B'\u{c}D\r\n"), expected);
    assert_eq!(Algorithm::parse("F2\u{a0}B'\u{3000}D\u{2028}"), expected);
    assert_eq!(Algorithm::parse("\u{85}F2\u{1680}B'\u{2003}D\u{205f}"), expected);
}

#[test]
fn characters_that_only_look_like_space_do_not_separate() {
    assert_eq!(Algorithm::parse("F\u{200b}B"), None);
    assert_eq!(Algorithm::parse("F\u{feff}B"), None);
    assert_eq!(Algorithm::parse("F\u{0}B"), None);
}

#[test]
fn single_move_algorithm() {
    assert_eq!(Algorithm::parse("L'"), Some(Algorithm::new(vec![Move::new(Left, Prime)])));
}

#[test]
fn moves_keep_their_order() {
    let alg = Algorithm::parse("U D L R F B U' D' L' R' F' B' U2 D2 L2 R2 F2 B2").unwrap();
    let sides = [Up, Down, Left, Right, Front, Back];
    let kinds = [Normal, Prime, Double];
    assert_eq!(alg.moves.len(), 18);
    for (i, mv) in alg.moves.iter().enumerate() {
        assert_eq!(mv.side, sides[i % 6]);
        assert_eq!(mv.ty, kinds[i / 6]);
    }
}

#[test]
fn white_space_is_what_the_standard_library_calls_white_space() {
    let mut spaces = 0;
    for n in 0..=0x10ffffu32 {
        if let Some(c) = char::from_u32(n) {
            assert_eq!(is_whitespace(c), c.is_whitespace(), "U+{:04X}", n);
            if is_whitespace(c) {
                spaces += 1;
            }
        }
    }
    assert_eq!(spaces, 25);
}

#[test]
fn parse_agrees_with_splitting_at_white_space() {
    let texts = [
        "R U R' U'",
        " R  U2\tF'\n",
        "R\u{a0}U",
        "",
        "B2",
        "  ",
        "F B' X",
        "L\u{2009}L\u{2009}L",
    ];
    for text in texts {
        let mut expected = Some(Vec::new());
        for word in text.split_whitespace() {
            match (Move::parse(word), expected.as_mut()) {
                (Some(mv), Some(moves)) => moves.push(mv),
                _ => expected = None,
            }
        }
        assert_eq!(Algorithm::parse(text).map(|alg| alg.moves), expected);
    }
}

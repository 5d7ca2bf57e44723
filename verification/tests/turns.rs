use rubik::algorithm::MoveType::{Double, Normal, Prime};
use rubik::algorithm::Side::{Back, Down, Front, Left, Right, Up};
use rubik::algorithm::{Algorithm, Move, Side};
use rubik::colour::Colour;
use rubik::colour::Colour::{Blue, Green, Orange, Red, White, Yellow};
use rubik::cube::Cube;
use rubik::face::{Face, Line};

const SIDES: [Side; 6] = [Up, Down, Left, Right, Front, Back];

const COLOURS: [Colour; 6] = [Green, Blue, Yellow, White, Red, Orange];

fn run(cube: &mut Cube, text: &str) {
    cube.execute_algorithm(Algorithm::parse(text).unwrap());
}

fn after(text: &str) -> Cube {
    let mut cube = Cube::default();
    run(&mut cube, text);
    cube
}

fn scrambled() -> Cube {
    after("R U2 F' L D B2 R' F U' L2 D' B")
}

fn faces(cube: &Cube) -> [Face; 6] {
    [cube.up, cube.front, cube.left, cube.back, cube.right, cube.down]
}

fn count(cube: &Cube, colour: Colour) -> usize {
    faces(cube)
        .iter()
        .flat_map(|f| [f.ul, f.um, f.ur, f.ml, f.mm, f.mr, f.bl, f.bm, f.br])
        .filter(|c| *c == colour)
        .count()
}

fn times_until_solved(text: &str) -> usize {
    let mut cube = Cube::default();
    let mut times = 0;
    loop {
        run(&mut cube, text);
        times += 1;
        if cube == Cube::default() || times > 2000 {
            return times;
        }
    }
}

#[test]
fn the_default_cube_is_solved() {
    let cube = Cube::default();
    assert_eq!(cube.up, Face::fill(White));
    assert_eq!(cube.front, Face::fill(Green));
    assert_eq!(cube.left, Face::fill(Orange));
    assert_eq!(cube.back, Face::fill(Blue));
    assert_eq!(cube.right, Face::fill(Red));
    assert_eq!(cube.down, Face::fill(Yellow));
}

#[test]
fn sexy_move_six_times_solves() {
    let mut cube = Cube::default();
    for round in 1..=6 {
        cube.execute_algorithm(Algorithm::parse("R U R' U'").unwrap());
        assert_eq!(cube == Cube::default(), round == 6);
    }
}

#[test]
fn get_face_picks_the_side() {
    let cube = scrambled();
    assert_eq!(*cube.get_face(Up), cube.up);
    assert_eq!(*cube.get_face(Down), cube.down);
    assert_eq!(*cube.get_face(Front), cube.front);
    assert_eq!(*cube.get_face(Back), cube.back);
    assert_eq!(*cube.get_face(Right), cube.right);
    assert_eq!(*cube.get_face(Left), cube.left);
}

#[test]
fn get_face_mut_writes_one_side() {
    for side in SIDES {
        let mut cube = scrambled();
        assert_eq!(*cube.get_face_mut(side), *scrambled().get_face(side));
        *cube.get_face_mut(side) = Face::fill(Red);
        for other in SIDES {
            if other == side {
                assert_eq!(*cube.get_face(other), Face::fill(Red));
            } else {
                assert_eq!(*cube.get_face(other), *scrambled().get_face(other));
            }
        }
    }
}

#[test]
fn lines_around_each_side_in_turning_order() {
    let c = scrambled();
    assert_eq!(
        c.get_up_lines(),
        [
            c.front.get_upper_line(),
            c.left.get_upper_line(),
            c.back.get_upper_line(),
            c.right.get_upper_line()
        ]
    );
    assert_eq!(
        c.get_down_lines(),
        [
            c.front.get_bottom_line(),
            c.right.get_bottom_line(),
            c.back.get_bottom_line(),
            c.left.get_bottom_line()
        ]
    );
    assert_eq!(
        c.get_front_lines(),
        [
            c.up.get_bottom_line(),
            c.right.get_left_line(),
            c.down.get_upper_line(),
            c.left.get_right_line()
        ]
    );
    assert_eq!(
        c.get_back_lines(),
        [
            c.up.get_upper_line(),
            c.left.get_left_line(),
            c.down.get_bottom_line(),
            c.right.get_right_line()
        ]
    );
    assert_eq!(
        c.get_right_lines(),
        [
            c.front.get_right_line(),
            c.up.get_right_line(),
            c.back.get_left_line(),
            c.down.get_right_line()
        ]
    );
    assert_eq!(
        c.get_left_lines(),
        [
            c.front.get_left_line(),
            c.down.get_left_line(),
            c.back.get_right_line(),
            c.up.get_left_line()
        ]
    );
}

#[test]
fn get_lines_picks_the_side() {
    let c = scrambled();
    assert_eq!(c.get_lines(Up), c.get_up_lines());
    assert_eq!(c.get_lines(Down), c.get_down_lines());
    assert_eq!(c.get_lines(Front), c.get_front_lines());
    assert_eq!(c.get_lines(Back), c.get_back_lines());
    assert_eq!(c.get_lines(Right), c.get_right_lines());
    assert_eq!(c.get_lines(Left), c.get_left_lines());
}

#[test]
fn lines_around_a_side_are_written_where_they_are_read() {
    let lines = [
        Line(Red, Green, Blue),
        Line(Green, Blue, Yellow),
        Line(Blue, Yellow, White),
        Line(Yellow, White, Orange),
    ];
    for side in SIDES {
        let mut cube = scrambled();
        cube.set_lines(side, lines);
        assert_eq!(cube.get_lines(side), lines);
        assert_eq!(*cube.get_face(side), *scrambled().get_face(side));
        cube.set_lines(side, scrambled().get_lines(side));
        assert_eq!(cube, scrambled());
    }
}

#[test]
fn the_setter_of_each_side_is_the_one_set_lines_picks() {
    let lines = [
        Line(Red, Green, Blue),
        Line(Green, Blue, Yellow),
        Line(Blue, Yellow, White),
        Line(Yellow, White, Orange),
    ];
    let by_side = |side: Side| {
        let mut cube = scrambled();
        cube.set_lines(side, lines);
        cube
    };
    let mut cube = scrambled();
    cube.set_up_lines(lines);
    assert_eq!(cube, by_side(Up));
    let mut cube = scrambled();
    cube.set_down_lines(lines);
    assert_eq!(cube, by_side(Down));
    let mut cube = scrambled();
    cube.set_front_lines(lines);
    assert_eq!(cube, by_side(Front));
    let mut cube = scrambled();
    cube.set_back_lines(lines);
    assert_eq!(cube, by_side(Back));
    let mut cube = scrambled();
    cube.set_right_lines(lines);
    assert_eq!(cube, by_side(Right));
    let mut cube = scrambled();
    cube.set_left_lines(lines);
    assert_eq!(cube, by_side(Left));
}

#[test]
fn front_lines_go_to_the_four_neighbours() {
    let lines = [
        Line(Red, Green, Blue),
        Line(Green, Blue, Yellow),
        Line(Blue, Yellow, White),
        Line(Yellow, White, Orange),
    ];
    let mut cube = Cube::default();
    cube.set_front_lines(lines);
    assert_eq!(cube.front, Face::fill(Green));
    assert_eq!(cube.back, Face::fill(Blue));
    assert_eq!(cube.up.get_bottom_line(), lines[0]);
    assert_eq!(cube.right.get_left_line(), lines[1]);
    assert_eq!(cube.down.get_upper_line(), lines[2]);
    assert_eq!(cube.left.get_right_line(), lines[3]);

    let mut cube = Cube::default();
    cube.set_back_lines(lines);
    assert_eq!(cube.front, Face::fill(Green));
    assert_eq!(cube.back, Face::fill(Blue));
    assert_eq!(cube.up.get_upper_line(), lines[0]);
    assert_eq!(cube.left.get_left_line(), lines[1]);
    assert_eq!(cube.down.get_bottom_line(), lines[2]);
    assert_eq!(cube.right.get_right_line(), lines[3]);
}

#[test]
fn a_turn_of_the_solved_cube_hands_each_line_on() {
    let up = after("U");
    assert_eq!(up.up, Face::fill(White));
    assert_eq!(up.down, Face::fill(Yellow));
    assert_eq!(up.left, Face { ul: Green, um: Green, ur: Green, ..Face::fill(Orange) });
    assert_eq!(up.back, Face { ul: Orange, um: Orange, ur: Orange, ..Face::fill(Blue) });
    assert_eq!(up.right, Face { ul: Blue, um: Blue, ur: Blue, ..Face::fill(Red) });
    assert_eq!(up.front, Face { ul: Red, um: Red, ur: Red, ..Face::fill(Green) });

    let down = after("D");
    assert_eq!(down.up, Face::fill(White));
    assert_eq!(down.down, Face::fill(Yellow));
    assert_eq!(down.right, Face { bl: Green, bm: Green, br: Green, ..Face::fill(Red) });
    assert_eq!(down.back, Face { bl: Red, bm: Red, br: Red, ..Face::fill(Blue) });
    assert_eq!(down.left, Face { bl: Blue, bm: Blue, br: Blue, ..Face::fill(Orange) });
    assert_eq!(down.front, Face { bl: Orange, bm: Orange, br: Orange, ..Face::fill(Green) });

    let right = after("R");
    assert_eq!(right.right, Face::fill(Red));
    assert_eq!(right.left, Face::fill(Orange));
    assert_eq!(right.up, Face { ur: Green, mr: Green, br: Green, ..Face::fill(White) });
    assert_eq!(right.back, Face { ul: White, ml: White, bl: White, ..Face::fill(Blue) });
    assert_eq!(right.down, Face { ur: Blue, mr: Blue, br: Blue, ..Face::fill(Yellow) });
    assert_eq!(right.front, Face { ur: Yellow, mr: Yellow, br: Yellow, ..Face::fill(Green) });

    let left = after("L");
    assert_eq!(left.right, Face::fill(Red));
    assert_eq!(left.left, Face::fill(Orange));
    assert_eq!(left.front, Face { ul: White, ml: White, bl: White, ..Face::fill(Green) });
    assert_eq!(left.down, Face { ul: Green, ml: Green, bl: Green, ..Face::fill(Yellow) });
    assert_eq!(left.back, Face { ur: Yellow, mr: Yellow, br: Yellow, ..Face::fill(Blue) });
    assert_eq!(left.up, Face { ul: Blue, ml: Blue, bl: Blue, ..Face::fill(White) });

    let front = after("F");
    assert_eq!(front.front, Face::fill(Green));
    assert_eq!(front.back, Face::fill(Blue));
    assert_eq!(front.right, Face { ul: White, ml: White, bl: White, ..Face::fill(Red) });
    assert_eq!(front.down, Face { ul: Red, um: Red, ur: Red, ..Face::fill(Yellow) });
    assert_eq!(front.left, Face { ur: Yellow, mr: Yellow, br: Yellow, ..Face::fill(Orange) });
    assert_eq!(front.up, Face { bl: Orange, bm: Orange, br: Orange, ..Face::fill(White) });

    let back = after("B");
    assert_eq!(back.front, Face::fill(Green));
    assert_eq!(back.back, Face::fill(Blue));
    assert_eq!(back.left, Face { ul: White, ml: White, bl: White, ..Face::fill(Orange) });
    assert_eq!(back.down, Face { bl: Orange, bm: Orange, br: Orange, ..Face::fill(Yellow) });
    assert_eq!(back.right, Face { ur: Yellow, mr: Yellow, br: Yellow, ..Face::fill(Red) });
    assert_eq!(back.up, Face { ul: Red, um: Red, ur: Red, ..Face::fill(White) });
}

#[test]
fn a_turn_keeps_the_order_of_cells_within_a_line() {
    let before = scrambled();
    for side in SIDES {
        let mut cube = before;
        cube.turn_side(side);
        let old = before.get_lines(side);
        let new = cube.get_lines(side);
        assert_eq!(new, [old[3], old[0], old[1], old[2]]);
        let mut face = *before.get_face(side);
        face.rot_clockwise();
        assert_eq!(*cube.get_face(side), face);

        let mut cube = before;
        cube.turn_side_prime(side);
        let new = cube.get_lines(side);
        assert_eq!(new, [old[1], old[2], old[3], old[0]]);
        let mut face = *before.get_face(side);
        face.rot_counterclockwise();
        assert_eq!(*cube.get_face(side), face);

        let mut cube = before;
        cube.turn_side_twice(side);
        let new = cube.get_lines(side);
        assert_eq!(new, [old[2], old[3], old[0], old[1]]);
        let mut face = *before.get_face(side);
        face.rot_clockwise();
        face.rot_clockwise();
        assert_eq!(*cube.get_face(side), face);
    }
}

#[test]
fn a_turn_leaves_the_opposite_face_alone() {
    let before = scrambled();
    let pairs =
        [(Up, Down), (Down, Up), (Left, Right), (Right, Left), (Front, Back), (Back, Front)];
    for (side, opposite) in pairs {
        let mut cube = before;
        cube.turn_side(side);
        assert_eq!(*cube.get_face(opposite), *before.get_face(opposite));
        assert_ne!(cube, before);
    }
}

#[test]
fn turn_and_prime_undo_each_other() {
    for side in SIDES {
        let mut cube = scrambled();
        cube.turn_side(side);
        assert_ne!(cube, scrambled());
        cube.turn_side_prime(side);
        assert_eq!(cube, scrambled());
        cube.turn_side_prime(side);
        assert_ne!(cube, scrambled());
        cube.turn_side(side);
        assert_eq!(cube, scrambled());
    }
}

#[test]
fn four_turns_are_none() {
    for side in SIDES {
        let mut cube = scrambled();
        for turns in 1..=4 {
            cube.turn_side(side);
            assert_eq!(cube == scrambled(), turns == 4);
        }
        for turns in 1..=4 {
            cube.turn_side_prime(side);
            assert_eq!(cube == scrambled(), turns == 4);
        }
    }
}

#[test]
fn two_turns_are_a_double_turn() {
    for side in SIDES {
        let mut twice = scrambled();
        twice.turn_side(side);
        twice.turn_side(side);
        let mut back_twice = scrambled();
        back_twice.turn_side_prime(side);
        back_twice.turn_side_prime(side);
        let mut double = scrambled();
        double.turn_side_twice(side);
        assert_eq!(double, twice);
        assert_eq!(double, back_twice);
        double.turn_side_twice(side);
        assert_eq!(double, scrambled());
    }
}

#[test]
fn three_turns_are_a_prime_turn() {
    for side in SIDES {
        let mut thrice = scrambled();
        thrice.turn_side(side);
        thrice.turn_side(side);
        thrice.turn_side(side);
        let mut prime = scrambled();
        prime.turn_side_prime(side);
        assert_eq!(prime, thrice);
    }
}

#[test]
fn every_turn_keeps_nine_cells_of_each_colour() {
    let mut cube = Cube::default();
    for colour in COLOURS {
        assert_eq!(count(&cube, colour), 9);
    }
    for round in 0..20 {
        for (i, side) in SIDES.iter().enumerate() {
            match (round + i) % 3 {
                0 => cube.turn_side(*side),
                1 => cube.turn_side_prime(*side),
                _ => cube.turn_side_twice(*side),
            }
            for colour in COLOURS {
                assert_eq!(count(&cube, colour), 9);
            }
        }
    }
    assert_ne!(cube, Cube::default());
}

#[test]
fn no_turn_moves_a_centre() {
    let cube = scrambled();
    assert_eq!(cube.up.mm, White);
    assert_eq!(cube.front.mm, Green);
    assert_eq!(cube.left.mm, Orange);
    assert_eq!(cube.back.mm, Blue);
    assert_eq!(cube.right.mm, Red);
    assert_eq!(cube.down.mm, Yellow);
}

#[test]
fn execute_move_picks_the_turn() {
    for side in SIDES {
        let mut moved = scrambled();
        moved.execute_move(Move::new(side, Normal));
        let mut turned = scrambled();
        turned.turn_side(side);
        assert_eq!(moved, turned);

        let mut moved = scrambled();
        moved.execute_move(Move::new(side, Prime));
        let mut turned = scrambled();
        turned.turn_side_prime(side);
        assert_eq!(moved, turned);

        let mut moved = scrambled();
        moved.execute_move(Move::new(side, Double));
        let mut turned = scrambled();
        turned.turn_side_twice(side);
        assert_eq!(moved, turned);
    }
}

#[test]
fn an_algorithm_is_its_moves_in_order() {
    let mut by_algorithm = Cube::default();
    by_algorithm.execute_algorithm(Algorithm::new(vec![
        Move::new(Right, Normal),
        Move::new(Up, Double),
        Move::new(Front, Prime),
    ]));
    let mut by_moves = Cube::default();
    by_moves.execute_move(Move::new(Right, Normal));
    by_moves.execute_move(Move::new(Up, Double));
    by_moves.execute_move(Move::new(Front, Prime));
    assert_eq!(by_algorithm, by_moves);

    let mut other_order = Cube::default();
    other_order.execute_move(Move::new(Up, Double));
    other_order.execute_move(Move::new(Right, Normal));
    other_order.execute_move(Move::new(Front, Prime));
    assert_ne!(by_algorithm, other_order);
}

#[test]
fn the_empty_algorithm_changes_nothing() {
    let mut cube = scrambled();
    cube.execute_algorithm(Algorithm::new(vec![]));
    assert_eq!(cube, scrambled());
}

#[test]
fn turns_of_different_sides_do_not_commute() {
    assert_ne!(after("R U"), after("U R"));
    assert_ne!(after("F L"), after("L F"));
    assert_eq!(after("U D"), after("D U"));
    assert_eq!(after("L R"), after("R L"));
    assert_eq!(after("F B"), after("B F"));
}

#[test]
fn an_algorithm_is_undone_by_its_inverse_backwards() {
    let mut cube = scrambled();
    assert_ne!(cube, Cube::default());
    run(&mut cube, "B' D L2 U F' R B2 D' L' F U2 R'");
    assert_eq!(cube, Cube::default());
}

#[test]
fn two_neighbouring_sides_in_turn_take_a_hundred_and_five_rounds() {
    let pairs = [
        "R U", "U R", "F D", "L D", "B D", "R D", "L U", "B U", "F U", "F L", "F R", "B L", "B R",
        "D F", "L B", "U' F'", "D' L'",
    ];
    for pair in pairs {
        assert_eq!(times_until_solved(pair), 105, "{}", pair);
    }
}

#[test]
fn well_known_orders() {
    assert_eq!(times_until_solved("U"), 4);
    assert_eq!(times_until_solved("D2"), 2);
    assert_eq!(times_until_solved("R U R' U'"), 6);
    assert_eq!(times_until_solved("F R' F' R"), 6);
    assert_eq!(times_until_solved("L D L' D'"), 6);
    assert_eq!(times_until_solved("R U R' U R U2 R'"), 6);
    assert_eq!(times_until_solved("R2 U2"), 6);
    assert_eq!(times_until_solved("L2 D2"), 6);
    assert_eq!(times_until_solved("U D'"), 4);
    assert_eq!(times_until_solved("R U'"), 63);
    assert_eq!(times_until_solved("B R'"), 63);
    assert_eq!(times_until_solved("D' L"), 63);
    assert_eq!(times_until_solved("R U2 D' B D'"), 1260);
}

#[test]
fn six_half_turns_make_a_chessboard() {
    let cube = after("U2 D2 F2 B2 L2 R2");
    let board = |a: Colour, b: Colour| Face {
        ul: a,
        um: b,
        ur: a,
        ml: b,
        mm: a,
        mr: b,
        bl: a,
        bm: b,
        br: a,
    };
    assert_eq!(cube.up, board(White, Yellow));
    assert_eq!(cube.down, board(Yellow, White));
    assert_eq!(cube.front, board(Green, Blue));
    assert_eq!(cube.back, board(Blue, Green));
    assert_eq!(cube.left, board(Orange, Red));
    assert_eq!(cube.right, board(Red, Orange));
}

#[test]
fn default_to_copy_is_a_copy() {
    let mut cube = Cube::default();
    let copy = cube;
    cube.turn_side(Up);
    assert_eq!(copy, Cube::default());
    assert_ne!(cube, copy);
}

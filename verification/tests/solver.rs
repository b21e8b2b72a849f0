use skewb::Direction;
use skewb::Move;
use skewb::NormalizedSkewb;

#[test]
fn already_solved() {
    let mut sut = NormalizedSkewb::new();
    let solution = sut.solution().unwrap();
    assert!(solution.is_empty());
}

#[test]
fn one_move_solution() {
    let mut sut = NormalizedSkewb::new();
    sut.turn_lr((0, 0, 0));
    let solution = sut.solution().unwrap();
    assert_eq!(
        vec![Move {
            direction: Direction::FB,
            corner: (0, 0, 0)
        }],
        solution
    );
}

#[test]
fn two_lefts_make_a_right() {
    let mut sut = NormalizedSkewb::new();
    sut.turn_lr((0, 0, 0));
    sut.turn_lr((0, 0, 0));
    let solution = sut.solution().unwrap();
    let expected = vec![Move {
        direction: Direction::LR,
        corner: (0, 0, 0),
    }];
    assert_eq!(expected, solution);
}

#[test]
fn two_move_solution() {
    let mut sut = NormalizedSkewb::new();
    sut.turn_lr((0, 0, 0));
    sut.turn_lr((1, 0, 1));
    let solution = sut.solution().unwrap();
    let expected = vec![
        Move {
            direction: Direction::FB,
            corner: (1, 0, 1),
        },
        Move {
            direction: Direction::FB,
            corner: (0, 0, 0),
        },
    ];
    assert_eq!(expected, solution);
}

#[test]
fn four_move_solution() {
    let mut sut = NormalizedSkewb::new();
    sut.turn_lr((0, 0, 0));
    sut.turn_lr((1, 0, 1));
    sut.turn_fb((0, 0, 0));
    sut.turn_fb((1, 0, 1));
    let solution = sut.solution().unwrap();
    let expected = vec![
        Move {
            direction: Direction::LR,
            corner: (1, 0, 1),
        },
        Move {
            direction: Direction::LR,
            corner: (0, 0, 0),
        },
        Move {
            direction: Direction::FB,
            corner: (1, 0, 1),
        },
        Move {
            direction: Direction::FB,
            corner: (0, 0, 0),
        },
    ];
    assert_eq!(expected, solution);
}

#[test]
fn solution_leaves_state_unchanged() {
    let mut sut = NormalizedSkewb::new();
    sut.turn_lr((0, 1, 1));
    sut.turn_fb((1, 1, 0));
    let before = sut;
    let solution = sut.solution().unwrap();
    assert!(!solution.is_empty());
    assert_eq!(before, sut);
}

#[test]
fn solution_moves_solve_the_scramble() {
    let mut sut = NormalizedSkewb::new();
    sut.turn_lr((0, 1, 1));
    sut.turn_lr((1, 1, 0));
    sut.turn_fb((0, 0, 0));
    let solution = sut.solution().unwrap();
    for move_ in solution.iter() {
        sut.do_move(move_);
    }
    assert!(sut.is_solved());
}

use skewb::Center;
use skewb::Color;
use skewb::CornerPiece;
use skewb::Direction;
use skewb::Move;
use skewb::NormalizedSkewb;
use skewb::Orientation;
use skewb::Skewb;

#[test]
fn sticker_projects_each_axis() {
    let piece = CornerPiece(Color::B, Color::G, Color::R);
    assert_eq!(piece.sticker(Orientation::UD), Color::B);
    assert_eq!(piece.sticker(Orientation::LR), Color::G);
    assert_eq!(piece.sticker(Orientation::FB), Color::R);
}

#[test]
fn orientation_addition_table() {
    assert_eq!(Orientation::UD.add(Orientation::LR), Orientation::LR);
    assert_eq!(Orientation::LR.add(Orientation::LR), Orientation::FB);
    assert_eq!(Orientation::LR.add(Orientation::FB), Orientation::UD);
    assert_eq!(Orientation::FB.add(Orientation::FB), Orientation::LR);
    assert_eq!(Orientation::FB.add(Orientation::LR), Orientation::UD);
    assert_eq!(Orientation::FB.sub(Orientation::LR), Orientation::LR);
    assert_eq!(Orientation::UD.sub(Orientation::FB), Orientation::LR);
}

#[test]
fn solved_state_queries() {
    let sut = Skewb::new();
    assert_eq!(sut.get_center_piece(Center::U), Color::Y);
    assert_eq!(sut.get_center_piece(Center::F), Color::B);
    assert_eq!(sut.get_center_piece(Center::R), Color::R);
    assert_eq!(sut.get_center_piece(Center::B), Color::G);
    assert_eq!(sut.get_center_piece(Center::L), Color::O);
    assert_eq!(sut.get_center_piece(Center::D), Color::W);
    assert_eq!(
        sut.get_corner_piece((0, 0, 0)),
        CornerPiece(Color::Y, Color::O, Color::G)
    );
    assert_eq!(
        sut.get_corner_piece((1, 1, 1)),
        CornerPiece(Color::W, Color::R, Color::B)
    );
    assert_eq!(sut.get_corner_orientation((0, 0, 0)), Orientation::UD);
}

#[test]
fn turn_updates_queries() {
    let mut sut = Skewb::new();
    sut.turn_lr((0, 0, 0));
    assert_eq!(sut.get_corner_orientation((0, 0, 0)), Orientation::LR);
    assert_eq!(
        sut.get_corner_piece((0, 0, 1)),
        CornerPiece(Color::Y, Color::R, Color::G)
    );
    assert_eq!(sut.get_center_piece(Center::B), Color::O);
    assert_eq!(sut.get_center_piece(Center::L), Color::Y);
    assert_eq!(sut.get_center_piece(Center::U), Color::G);
}

#[test]
fn rotation_flips_piece_coloring_parity() {
    let mut sut = Skewb::new();
    sut.rotate_ud();
    assert_eq!(
        sut.get_corner_piece((0, 0, 0)),
        CornerPiece(Color::Y, Color::B, Color::O)
    );
    assert_eq!(sut.get_center_piece(Center::F), Color::R);
}

#[test]
fn full_turn_three_times_restores() {
    let solved = Skewb::new();
    let mut sut = Skewb::new();
    sut.turn_lr((1, 0, 0));
    sut.turn_lr((1, 0, 0));
    sut.turn_lr((1, 0, 0));
    assert_eq!(solved, sut);
}

#[test]
fn full_turn_fb_undoes_turn_lr() {
    let solved = Skewb::new();
    let mut sut = Skewb::new();
    sut.turn_lr((0, 1, 1));
    sut.turn_fb((0, 1, 1));
    assert_eq!(solved, sut);
}

#[test]
fn rotations_four_times_restore() {
    let solved = Skewb::new();

    let mut sut = Skewb::new();
    sut.rotate_ud();
    sut.rotate_ud();
    sut.rotate_ud();
    sut.rotate_ud();
    assert_eq!(solved, sut);

    let mut sut = Skewb::new();
    sut.rotate_fb();
    sut.rotate_fb();
    sut.rotate_fb();
    sut.rotate_fb();
    assert_eq!(solved, sut);

    let mut sut = Skewb::new();
    sut.rotate_lr();
    sut.rotate_lr();
    sut.rotate_lr();
    sut.rotate_lr();
    assert_eq!(solved, sut);
}

#[test]
fn reduced_turn_three_times_restores() {
    let solved = NormalizedSkewb::new();
    let mut sut = NormalizedSkewb::new();
    sut.turn_lr((0, 1, 1));
    sut.turn_lr((0, 1, 1));
    sut.turn_lr((0, 1, 1));
    assert_eq!(solved, sut);
}

#[test]
fn turn_fb_undoes_turn_lr() {
    let mut sut = NormalizedSkewb::new();
    sut.turn_lr((1, 0, 1));
    let scrambled = sut;

    sut.turn_lr((1, 1, 0));
    sut.turn_fb((1, 1, 0));
    assert_eq!(scrambled, sut);

    sut.turn_fb((0, 0, 0));
    sut.turn_lr((0, 0, 0));
    assert_eq!(scrambled, sut);
}

#[test]
fn do_move_then_undo_move_restores() {
    let mut sut = NormalizedSkewb::new();
    sut.turn_lr((0, 0, 0));
    sut.turn_fb((1, 0, 1));
    let scrambled = sut;

    for corner in [(0, 0, 0), (0, 1, 1), (1, 0, 1), (1, 1, 0)] {
        for direction in [Direction::LR, Direction::FB] {
            let move_ = Move { direction, corner };
            sut.do_move(&move_);
            sut.undo_move(&move_);
            assert_eq!(scrambled, sut);
        }
    }
}

#[test]
fn undo_move_reverses_do_move_of_the_other_direction() {
    let mut by_fb = NormalizedSkewb::new();
    by_fb.turn_fb((0, 1, 1));

    let mut by_undo = NormalizedSkewb::new();
    by_undo.undo_move(&Move {
        direction: Direction::LR,
        corner: (0, 1, 1),
    });
    assert_eq!(by_fb, by_undo);
}

#[test]
fn is_solved_tracks_state() {
    let mut sut = NormalizedSkewb::new();
    assert!(sut.is_solved());
    sut.turn_lr((1, 1, 0));
    assert!(!sut.is_solved());
    sut.turn_fb((1, 1, 0));
    assert!(sut.is_solved());
}

#[test]
fn normalize_of_solved_is_solved() {
    let normalized = Skewb::new().normalize();
    assert_eq!(NormalizedSkewb::new(), normalized);
    assert_eq!(normalized.floating_pieces, [0, 1, 2, 3]);
}

#[test]
fn denormalize_of_solved_is_solved() {
    let sut = NormalizedSkewb::new().denormalize();
    assert_eq!(Skewb::new(), sut);
}

#[test]
fn denormalize_undoes_normalize() {
    let mut sut = Skewb::new();
    sut.turn_lr((0, 0, 0));
    sut.turn_fb((1, 1, 0));
    sut.turn_lr((0, 1, 1));
    let scrambled = sut;
    let round_tripped = sut.normalize().denormalize();
    assert_eq!(scrambled, round_tripped);
}

#[test]
fn normalize_matches_reduced_turns() {
    let mut full = Skewb::new();
    full.turn_lr((0, 0, 0));
    full.turn_fb((1, 0, 1));

    let mut reduced = NormalizedSkewb::new();
    reduced.turn_lr((0, 0, 0));
    reduced.turn_fb((1, 0, 1));

    assert_eq!(full.normalize(), reduced);
}

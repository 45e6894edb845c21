use blockfall::{
    children, should_explore, Action, Axis, Catalog, Direction, GameState, Layer, Parsing, Pattern, Piece,
    Polarity, Queue, ShapeId, Tetromino,
};
use std::collections::VecDeque;

fn bag_of(variant: Tetromino, count: usize) -> Pattern {
    let mut tetromino_set = [0; 8];
    tetromino_set[variant.index()] = count;
    Pattern { tetromino_set, draw_count: count }
}

fn queue_of(variant: Tetromino, count: usize) -> Queue {
    Queue { sequence: VecDeque::from(vec![bag_of(variant, count)]), hold: None, can_swap: true }
}

fn layer_with(variant: Tetromino, board: u64) -> Layer<4, 4> {
    let mut layer = Layer::<4, 4>::default();
    layer.bitboards[variant.index()] = board;
    layer
}

#[test]
fn layer_mask_covers_the_footprint() {
    assert_eq!(Layer::<4, 4>::mask(), 0x0f0f_0f0f);
    assert_eq!(Layer::<8, 8>::mask(), u64::MAX);
    assert_eq!(Layer::<3, 2>::mask(), 0x0707);
    assert_eq!(Layer::<0, 4>::mask(), 0);
}

#[test]
fn layer_occupied_joins_the_boards() {
    let mut layer = Layer::<4, 4>::default();
    assert_eq!(layer.occupied(), 0);
    layer.bitboards[0] = 0b0011;
    layer.bitboards[7] = 0b0110 << 8;
    assert_eq!(layer.occupied(), 0b0011 | (0b0110 << 8));
    assert!(!layer.is_full());
    layer.bitboards[3] = 0x0f0f_0f0f;
    assert!(layer.is_full());
    layer.clear();
    assert_eq!(layer.bitboards, [0; 8]);
    assert!(!layer.is_full());
}

#[test]
fn layer_is_full_ignores_cells_off_the_footprint() {
    let mut layer = Layer::<4, 4>::default();
    layer.bitboards[1] = 0x0f0f_0f07;
    layer.bitboards[2] = 0xf000_0000_0000_0000;
    assert!(!layer.is_full());
    layer.bitboards[5] = 0x08;
    assert!(layer.is_full());
}

#[test]
fn translate_shifts_by_the_stride() {
    assert_eq!(GameState::<4, 8, 4>::translate(1, 1, 1), 1 << 9);
    assert_eq!(GameState::<4, 8, 4>::translate(0b11, 2, 0), 0b1100);
    assert_eq!(GameState::<4, 8, 4>::translate(1 << 9, -1, -1), 1);
    assert_eq!(GameState::<4, 8, 4>::translate(1 << 9, -1, 0), 1 << 8);
    assert_eq!(GameState::<4, 8, 4>::translate(0x33, 0, 0), 0x33);
    assert_eq!(GameState::<4, 8, 4>::translate(1 << 1, -1, 1), 1 << 8);
}

#[test]
fn out_of_bounds_is_the_complement_of_the_field() {
    assert!(!GameState::<4, 8, 4>::out_of_bounds([0, 0, 0]));
    assert!(!GameState::<4, 8, 4>::out_of_bounds([3, 7, 3]));
    assert!(GameState::<4, 8, 4>::out_of_bounds([4, 0, 0]));
    assert!(GameState::<4, 8, 4>::out_of_bounds([0, 8, 0]));
    assert!(GameState::<4, 8, 4>::out_of_bounds([0, 0, 4]));
    assert!(GameState::<4, 8, 4>::out_of_bounds([-1, 0, 0]));
    assert!(GameState::<4, 8, 4>::out_of_bounds([0, -1, 0]));
    assert!(GameState::<4, 8, 4>::out_of_bounds([0, 0, -1]));
}

#[test]
fn new_piece_appears_centred_under_the_ceiling() {
    let catalog = Catalog::new();
    let square = Piece::from::<4, 8, 4>(&catalog, Tetromino::O);
    assert_eq!(square.shape_id, ShapeId::from(Tetromino::O));
    assert_eq!(square.position, [1, 6, 1]);
    let line = Piece::from::<4, 8, 4>(&catalog, Tetromino::I);
    assert_eq!(line.position, [0, 4, 0]);
    let tee = Piece::from::<8, 10, 6>(&catalog, Tetromino::T);
    assert_eq!(tee.position, [2, 7, 1]);
    assert_eq!(tee.shape(&catalog).bitfield.value, 0x0020_0070_0000);
}

#[test]
fn piece_translate_and_rotate() {
    let catalog = Catalog::new();
    let mut piece = Piece::from::<4, 8, 4>(&catalog, Tetromino::L);
    piece.translate([1, -2, 0]);
    assert_eq!(piece.position, [1, 3, 0]);
    let around = Direction { polarity: Polarity::Positive, axis: Axis::X };
    let before = piece.shape_id;
    piece.rotate(&catalog, around);
    assert_eq!(piece.shape_id, before.rotate(around));
    assert_eq!(piece.position, [1, 3, 0]);
}

#[test]
fn moves_stop_at_the_walls() {
    let catalog = Catalog::new();
    let mut state = GameState::<4, 8, 4>::from(&catalog, queue_of(Tetromino::O, 1));
    assert_eq!(state.piece.position, [1, 6, 1]);
    assert!(state.perform(&catalog, Action::MoveLeft, true));
    assert_eq!(state.piece.position, [0, 6, 1]);
    let before = state.clone();
    assert!(!state.perform(&catalog, Action::MoveLeft, true));
    assert_eq!(state, before);
    assert!(state.perform(&catalog, Action::MoveRight, true));
    assert!(state.perform(&catalog, Action::MoveRight, true));
    assert!(!state.perform(&catalog, Action::MoveRight, true));
    assert_eq!(state.piece.position, [2, 6, 1]);
    assert!(state.perform(&catalog, Action::MoveForward, true));
    assert!(!state.perform(&catalog, Action::MoveForward, true));
    assert_eq!(state.piece.position, [2, 6, 2]);
    assert!(state.perform(&catalog, Action::MoveBackward, false));
    assert_eq!(state.piece.position, [2, 6, 2]);
    assert!(state.perform(&catalog, Action::SoftDrop, true));
    assert_eq!(state.piece.position, [2, 5, 2]);
    assert_eq!(
        state.history,
        vec![
            Action::MoveLeft,
            Action::MoveRight,
            Action::MoveRight,
            Action::MoveForward,
            Action::SoftDrop
        ]
    );
}

#[test]
fn fits_sees_locked_cells() {
    let catalog = Catalog::new();
    let mut state = GameState::<4, 8, 4>::from(&catalog, queue_of(Tetromino::O, 1));
    assert!(state.fits(&catalog, [0, -1, 0], None));
    state.playfield[6].bitboards[0] = 1 << (1 + 8);
    assert!(!state.fits(&catalog, [0, -1, 0], None));
    assert!(!state.perform(&catalog, Action::SoftDrop, true));
    assert!(state.fits(&catalog, [0, 0, 0], None));
    state.playfield[6].bitboards[0] = 1 << (3 + 8);
    assert!(state.fits(&catalog, [0, -1, 0], None));
    assert!(state.fits(&catalog, [1, 0, 0], None));
    assert!(!state.fits(&catalog, [1, -1, 0], None));
    assert!(!state.fits(&catalog, [0, 1, 0], None));
}

#[test]
fn rotation_is_refused_where_the_turned_piece_collides() {
    let catalog = Catalog::new();
    let mut state = GameState::<4, 8, 4>::from(&catalog, queue_of(Tetromino::I, 1));
    assert_eq!(state.piece.position, [0, 4, 0]);
    let around = Direction { polarity: Polarity::Positive, axis: Axis::Z };
    let turned = state.piece.shape_id.rotate(around);
    assert!(state.fits(&catalog, [0, 0, 0], Some(around)));
    let shape = *catalog.shape(&turned);
    let bottom = shape.bounding_box.start[1];
    state.playfield[4 + bottom].bitboards[2] = shape.bitboards[bottom];
    let before = state.clone();
    assert!(!state.perform(&catalog, Action::Rotate { direction: around }, true));
    assert_eq!(state, before);
    state.playfield[4 + bottom].bitboards[2] = 0;
    assert!(state.perform(&catalog, Action::Rotate { direction: around }, true));
    assert_eq!(state.piece.shape_id, turned);
    assert_eq!(state.piece.position, [0, 4, 0]);
}

#[test]
fn hard_drop_rests_on_the_floor() {
    let catalog = Catalog::new();
    let mut state = GameState::<4, 8, 4>::from(&catalog, queue_of(Tetromino::O, 1));
    assert_eq!(state.piece.shape_id, ShapeId::from(Tetromino::O));
    assert_eq!(state.piece.position, [1, 6, 1]);

    assert!(state.perform(&catalog, Action::HardDrop, true));

    let footprint: u64 = (1 << 9) | (1 << 10) | (1 << 17) | (1 << 18);
    assert_eq!(state.playfield[0].occupied(), footprint);
    assert_eq!(state.playfield[0].bitboards[Tetromino::O.index()], footprint);
    for level in 1..8 {
        assert_eq!(state.playfield[level].occupied(), 0);
    }
    assert_eq!(state.history, vec![Action::HardDrop]);
    assert_eq!(state.piece.shape_id.orientation, ShapeId::from(Tetromino::O).orientation);
}

#[test]
fn hard_drop_without_performing_changes_nothing() {
    let catalog = Catalog::new();
    let mut state = GameState::<4, 8, 4>::from(&catalog, queue_of(Tetromino::O, 1));
    let before = state.clone();
    assert!(state.perform(&catalog, Action::HardDrop, false));
    assert_eq!(state, before);
}

#[test]
fn hard_drop_stacks_pieces() {
    let catalog = Catalog::new();
    let mut state = GameState::<4, 8, 4>::from(&catalog, queue_of(Tetromino::O, 2));
    assert!(state.perform(&catalog, Action::HardDrop, true));
    assert_eq!(state.piece.shape_id, ShapeId::from(Tetromino::O));
    assert!(state.perform(&catalog, Action::HardDrop, true));
    let footprint: u64 = (1 << 9) | (1 << 10) | (1 << 17) | (1 << 18);
    assert_eq!(state.playfield[0].occupied(), footprint);
    assert_eq!(state.playfield[1].occupied(), footprint);
    assert_eq!(state.playfield[2].occupied(), 0);
}

#[test]
fn hard_drop_clears_a_filled_layer() {
    let catalog = Catalog::new();
    let mut state = GameState::<4, 8, 4>::from(&catalog, queue_of(Tetromino::O, 1));
    let footprint: u64 = (1 << 9) | (1 << 10) | (1 << 17) | (1 << 18);
    state.playfield[0].bitboards[Tetromino::I.index()] = 0x0f0f_0f0f & !footprint;
    state.playfield[1].bitboards[Tetromino::T.index()] = 1;
    assert!(state.perform(&catalog, Action::HardDrop, true));
    assert_eq!(state.playfield[0].occupied(), 1);
    assert_eq!(state.playfield[0].bitboards[Tetromino::T.index()], 1);
    for level in 1..8 {
        assert_eq!(state.playfield[level].occupied(), 0);
    }
}

#[test]
fn clear_lines_keeps_the_layers_that_are_not_full() {
    let full = layer_with(Tetromino::I, 0x0f0f_0f0f);
    let partial = layer_with(Tetromino::T, 0x0000_0f01);
    let empty = Layer::<4, 4>::default();
    let catalog = Catalog::new();
    let piece = Piece::from::<4, 4, 4>(&catalog, Tetromino::O);
    let start = |playfield: [Layer<4, 4>; 3]| GameState::<4, 3, 4> {
        history: Vec::new(),
        queue: Queue::default(),
        piece,
        playfield,
    };

    let mut state = start([full, partial, full]);
    assert_eq!(state.clear_lines(), 2);
    assert_eq!(state.playfield, [partial, empty, empty]);

    let mut state = start([full, empty, full]);
    assert_eq!(state.clear_lines(), 2);
    assert_eq!(state.playfield, [empty, empty, empty]);

    let mut state = start([full, full, partial]);
    assert_eq!(state.clear_lines(), 2);
    assert_eq!(state.playfield, [partial, empty, empty]);

    let mut state = start([partial, full, empty]);
    assert_eq!(state.clear_lines(), 1);
    assert_eq!(state.playfield, [partial, empty, empty]);

    let mut state = start([full, full, full]);
    assert_eq!(state.clear_lines(), 3);
    assert_eq!(state.playfield, [empty, empty, empty]);

    let mut state = start([partial, empty, partial]);
    assert_eq!(state.clear_lines(), 0);
    assert_eq!(state.playfield, [partial, empty, partial]);
}

#[test]
fn place_piece_marks_the_board_of_the_variant() {
    let catalog = Catalog::new();
    let mut state = GameState::<4, 8, 4>::from(&catalog, queue_of(Tetromino::T, 1));
    assert_eq!(state.piece.position, [0, 5, 0]);
    state.place_piece(&catalog);
    let index = Tetromino::T.index();
    assert_eq!(state.playfield[6].bitboards[index], 0b0111 << 8);
    assert_eq!(state.playfield[7].bitboards[index], 0b0010 << 8);
    assert_eq!(state.playfield[6].occupied(), 0b0111 << 8);
    assert_eq!(state.playfield[5].occupied(), 0);
}

#[test]
fn all_actions_are_twelve() {
    let actions = Action::get_all_actions();
    assert_eq!(actions.len(), 12);
    assert_eq!(actions[0], Action::MoveForward);
    assert_eq!(actions[5], Action::HardDrop);
    assert_eq!(
        actions[6],
        Action::Rotate { direction: Direction { polarity: Polarity::Positive, axis: Axis::X } }
    );
    assert_eq!(
        actions[11],
        Action::Rotate { direction: Direction { polarity: Polarity::Negative, axis: Axis::Z } }
    );
    assert!(Action::MoveLeft.is_movement());
    assert!(!Action::SoftDrop.is_movement());
    assert!(!actions[7].is_movement());
}

#[test]
fn performable_actions_of_a_new_game() {
    let catalog = Catalog::new();
    let mut state = GameState::<4, 8, 4>::from(&catalog, queue_of(Tetromino::O, 1));
    let before = state.clone();
    assert_eq!(state.performable_actions(&catalog), Action::get_all_actions());
    assert_eq!(state, before);
    assert!(state.perform(&catalog, Action::MoveLeft, true));
    let actions = state.performable_actions(&catalog);
    assert_eq!(actions.len(), 11);
    assert!(!actions.contains(&Action::MoveLeft));
}

#[test]
fn performable_actions_ask_for_a_recent_hard_drop() {
    let catalog = Catalog::new();
    let mut state = GameState::<4, 8, 4>::from(&catalog, queue_of(Tetromino::O, 1));
    for action in [Action::SoftDrop, Action::SoftDrop, Action::SoftDrop] {
        assert!(state.perform(&catalog, action, true));
    }
    assert_eq!(state.performable_actions(&catalog).len(), 12);
    assert!(state.perform(&catalog, Action::SoftDrop, true));
    assert_eq!(state.performable_actions(&catalog), Vec::new());
    assert!(state.perform(&catalog, Action::HardDrop, true));
    assert!(!state.performable_actions(&catalog).is_empty());
}

#[test]
fn heuristic_testing() {
    let catalog = Catalog::new();
    let mut game_state =
        GameState::<4, 8, 4>::from(&catalog, Queue::parse("[IIII]p4").unwrap());
    assert_eq!(game_state.score(), Some(0));
    game_state.perform(&catalog, Action::HardDrop, true);
    assert_eq!(game_state.score(), Some(1));

    game_state.perform(&catalog, Action::HardDrop, true);
    println!("{:?}", game_state.playfield);
    println!("{:?}", game_state.score());
    assert_eq!(game_state.score(), None);
    let column: u64 = 1 << (2 + 2 * 8);
    for level in 0..8 {
        assert_eq!(game_state.playfield[level].occupied(), column);
    }
    assert_eq!(game_state.history, vec![Action::HardDrop, Action::HardDrop]);
}

#[test]
fn score_counts_hard_drops() {
    let catalog = Catalog::new();
    let mut state = GameState::<4, 8, 4>::from(&catalog, queue_of(Tetromino::O, 3));
    assert!(state.perform(&catalog, Action::SoftDrop, true));
    assert_eq!(state.score(), Some(0));
    assert!(state.perform(&catalog, Action::HardDrop, true));
    assert!(state.perform(&catalog, Action::MoveLeft, true));
    assert!(state.perform(&catalog, Action::HardDrop, true));
    assert_eq!(state.score(), Some(2));
    state.playfield[3].bitboards[0] = 1;
    assert_eq!(state.score(), Some(2));
    state.playfield[4].bitboards[7] = 1 << 63;
    assert_eq!(state.score(), None);
}

#[test]
fn children_of_a_new_game_hold_the_hard_drop_only() {
    let catalog = Catalog::new();
    let state = GameState::<4, 8, 4>::from(&catalog, queue_of(Tetromino::O, 3));
    let found = children(&catalog, state);
    assert_eq!(found.len(), 1);
    assert_eq!(found[0].history, vec![Action::HardDrop]);
    assert_eq!(found[0].score(), Some(1));
}

#[test]
fn children_come_least_worthy_first() {
    let catalog = Catalog::new();
    let mut state = GameState::<4, 8, 4>::from(&catalog, queue_of(Tetromino::O, 3));
    assert!(state.perform(&catalog, Action::HardDrop, true));
    let before = state.clone();
    let found = children(&catalog, state);
    assert_eq!(found.len(), 12);
    let all = Action::get_all_actions();
    let mut moves = 0;
    for child in found.iter().take(11) {
        assert_eq!(child.score(), Some(1));
        assert_eq!(child.history, vec![Action::HardDrop, all[if moves < 5 { moves } else { moves + 1 }]]);
        assert_eq!(child.playfield, before.playfield);
        moves += 1;
    }
    assert_eq!(found[11].score(), Some(2));
    assert_eq!(found[11].history, vec![Action::HardDrop, Action::HardDrop]);
}

#[test]
fn children_leave_out_states_with_cells_locked_high() {
    let catalog = Catalog::new();
    let mut state = GameState::<4, 8, 4>::from(&catalog, queue_of(Tetromino::O, 3));
    assert!(state.perform(&catalog, Action::HardDrop, true));
    state.playfield[5].bitboards[0] = 1;
    assert_eq!(children(&catalog, state), Vec::new());
}

#[test]
fn search_stops_at_depth_zero_seen_states_and_overflow() {
    assert!(should_explore(1, false, Some(0)));
    assert!(should_explore(200, false, Some(7)));
    assert!(!should_explore(0, false, Some(3)));
    assert!(!should_explore(5, true, Some(3)));
    assert!(!should_explore(5, false, None));
}

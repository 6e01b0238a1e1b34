use std::mem::{size_of, size_of_val};
use ttt_engine::{Player, TTTEngine, TTTError, TTTShape};

fn registered(a: &str, b: &str) -> TTTEngine {
    let mut engine = TTTEngine::new();
    engine.add_player(a).unwrap();
    engine.add_player(b).unwrap();
    engine
}

fn play(engine: &mut TTTEngine, moves: &[(usize, usize)]) {
    for &(x, y) in moves {
        engine.next_turn(x, y).unwrap();
    }
}

#[test]
fn mem_sizes() {
    let size = size_of::<TTTShape>();
    println!("Shape size = {}", size);
    let size = size_of_val(&Player::default());
    println!("Default player size = {}", size);
    let size = size_of::<Player>();
    println!("Static player size = {}", size);
    let engine = TTTEngine::new();
    let size = size_of_val(&engine);
    println!("Size of TTTEngine = {}", size);
}

#[test]
fn new_engine_is_empty() {
    let engine = TTTEngine::new();
    assert!(engine.get_board().iter().all(|row| row.len() == 3 && row.iter().all(|c| *c == TTTShape::Blank)));
    assert_eq!(engine.get_board().len(), 3);
    let players = engine.get_players();
    assert_eq!(players.len(), 2);
    for p in players {
        assert_eq!(*p.shape(), TTTShape::Blank);
        assert_eq!(p.name(), "None");
    }
    assert!(engine.check_winner().is_none());
    assert!(!engine.complete());
}

#[test]
fn move_places_current_mark_and_flips_turn() {
    let mut engine = registered("Alice", "Bob");
    assert_eq!(engine.get_current_player().name(), "Alice");
    assert!(engine.next_turn(2, 1).is_ok());
    assert_eq!(engine.get_board()[1][2], TTTShape::X);
    assert_eq!(engine.get_current_player().name(), "Bob");
    assert!(engine.next_turn(0, 2).is_ok());
    assert_eq!(engine.get_board()[2][0], TTTShape::O);
    assert_eq!(engine.get_current_player().name(), "Alice");
}

#[test]
fn move_on_taken_cell_is_refused() {
    let mut engine = registered("Alice", "Bob");
    engine.next_turn(1, 1).unwrap();
    let before = engine.get_board().clone();
    assert!(matches!(engine.next_turn(1, 1), Err(TTTError::ShapeAlreadyPlaced)));
    assert_eq!(*engine.get_board(), before);
    assert_eq!(engine.get_current_player().name(), "Bob");
}

#[test]
fn move_off_the_grid_is_refused() {
    let mut engine = registered("Alice", "Bob");
    assert!(matches!(engine.next_turn(3, 3), Err(TTTError::IndexOutOfRange)));
    assert!(matches!(engine.next_turn(3, 0), Err(TTTError::IndexOutOfRange)));
    assert!(matches!(engine.next_turn(0, 3), Err(TTTError::IndexOutOfRange)));
    assert!(matches!(engine.next_turn(usize::MAX, 1), Err(TTTError::IndexOutOfRange)));
    assert!(engine.get_board().iter().all(|row| row.iter().all(|c| *c == TTTShape::Blank)));
    assert_eq!(engine.get_current_player().name(), "Alice");
}

#[test]
fn no_winner_until_a_line_is_uniform() {
    let mut engine = registered("Alice", "Bob");
    assert!(engine.check_winner().is_none());
    play(&mut engine, &[(0, 0), (1, 1), (1, 0)]);
    assert!(engine.check_winner().is_none());
    play(&mut engine, &[(0, 1), (2, 0)]);
    assert_eq!(engine.check_winner().unwrap().name(), "Alice");
}

#[test]
fn row_win() {
    // X on the top row, O elsewhere.
    let mut engine = registered("Alice", "Bob");
    play(&mut engine, &[(0, 0), (0, 1), (1, 0), (1, 1), (2, 0)]);
    let winner = engine.check_winner().unwrap();
    assert_eq!(winner.name(), "Alice");
    assert_eq!(*winner.shape(), TTTShape::X);
}

#[test]
fn column_win() {
    // O down the left column.
    let mut engine = registered("Alice", "Bob");
    play(&mut engine, &[(1, 0), (0, 0), (2, 1), (0, 1), (1, 2), (0, 2)]);
    let winner = engine.check_winner().unwrap();
    assert_eq!(winner.name(), "Bob");
    assert_eq!(*winner.shape(), TTTShape::O);
}

#[test]
fn diagonal_win() {
    let mut engine = registered("Alice", "Bob");
    play(&mut engine, &[(0, 0), (1, 0), (1, 1), (2, 0), (2, 2)]);
    assert_eq!(engine.check_winner().unwrap().name(), "Alice");
}

#[test]
fn anti_diagonal_win() {
    let mut engine = registered("Alice", "Bob");
    play(&mut engine, &[(2, 0), (0, 0), (1, 1), (1, 0), (0, 2)]);
    assert_eq!(engine.check_winner().unwrap().name(), "Alice");
}

#[test]
fn tie_is_complete_without_winner() {
    // X O X
    // X O O
    // O X X
    let mut engine = registered("Alice", "Bob");
    play(
        &mut engine,
        &[(0, 0), (1, 0), (2, 0), (1, 1), (0, 1), (2, 1), (1, 2), (0, 2), (2, 2)],
    );
    assert!(engine.complete());
    assert!(engine.check_winner().is_none());
}

#[test]
fn reset_game_keeps_players() {
    let mut engine = registered("Alice", "Bob");
    play(&mut engine, &[(0, 0), (1, 1), (2, 2)]);
    engine.reset_game();
    assert!(engine.get_board().iter().all(|row| row.iter().all(|c| *c == TTTShape::Blank)));
    assert_eq!(engine.get_current_player().name(), "Alice");
    let players = engine.get_players();
    assert_eq!(players[0].name(), "Alice");
    assert_eq!(*players[0].shape(), TTTShape::X);
    assert_eq!(players[1].name(), "Bob");
    assert_eq!(*players[1].shape(), TTTShape::O);
}

#[test]
fn reset_players_allows_fresh_registration() {
    let mut engine = registered("Alice", "Bob");
    engine.next_turn(0, 0).unwrap();
    engine.reset_players();
    assert_eq!(engine.get_players()[0].name(), "None");
    assert_eq!(*engine.get_players()[1].shape(), TTTShape::Blank);
    assert_eq!(engine.get_board()[0][0], TTTShape::X);
    assert!(engine.add_player("Carol").is_ok());
    assert!(engine.add_player("Dave").is_ok());
    assert_eq!(engine.get_players()[0].name(), "Carol");
    assert_eq!(*engine.get_players()[0].shape(), TTTShape::X);
    assert_eq!(engine.get_players()[1].name(), "Dave");
    assert_eq!(*engine.get_players()[1].shape(), TTTShape::O);
}

#[test]
fn third_registration_is_refused() {
    let mut engine = registered("Alice", "Bob");
    assert!(matches!(engine.add_player("Carol"), Err(TTTError::RegistrationFull)));
    let players = engine.get_players();
    assert_eq!(players[0].name(), "Alice");
    assert_eq!(*players[0].shape(), TTTShape::X);
    assert_eq!(players[1].name(), "Bob");
    assert_eq!(*players[1].shape(), TTTShape::O);
}

#[test]
fn alice_wins_top_row() {
    let mut engine = registered("Alice", "Bob");
    assert_eq!(*engine.get_players()[0].shape(), TTTShape::X);
    assert_eq!(*engine.get_players()[1].shape(), TTTShape::O);
    play(&mut engine, &[(0, 0), (1, 1), (1, 0), (2, 2), (2, 0)]);
    let winner = engine.check_winner().unwrap();
    assert_eq!(winner.name(), "Alice");
    assert_eq!(*winner.shape(), TTTShape::X);
}

#[test]
fn board_text() {
    let mut engine = registered("Alice", "Bob");
    assert_eq!(engine.board_to_string(), " 0|1|2 \n| | | |0\n| | | |1\n| | | |2\n");
    play(&mut engine, &[(0, 0), (1, 1), (2, 2)]);
    assert_eq!(engine.board_to_string(), " 0|1|2 \n|X| | |0\n| |O| |1\n| | |X|2\n");
}

#[test]
fn shape_text_and_conversions() {
    assert_eq!(TTTShape::X.to_string(), "X");
    assert_eq!(TTTShape::O.to_string(), "O");
    assert_eq!(TTTShape::Blank.to_string(), " ");
    assert_eq!(TTTShape::from(0usize), TTTShape::X);
    assert_eq!(TTTShape::from(1usize), TTTShape::O);
    assert_eq!(TTTShape::from(2usize), TTTShape::Blank);
    assert_eq!(TTTShape::from(7usize), TTTShape::Blank);
    assert_eq!(TTTShape::default(), TTTShape::Blank);
}

#[test]
fn player_text() {
    let engine = registered("Alice", "Bob");
    assert_eq!(engine.get_players()[0].to_string(), "Alice(X)");
    assert_eq!(engine.get_players()[1].to_string(), "Bob(O)");
    assert_eq!(Player::default().to_string(), "None( )");
}

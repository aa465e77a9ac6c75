use tic_tac_toe::board::Sign;
use tic_tac_toe::game::{Game, GameState, PlayerKey, Tile, TicTacToeError};
use tic_tac_toe::session::{
    initialize_global_state, play, setup_game, start_game, GlobalState, InitializeGlobalState,
    Play, SetupGame, StartGame,
};

fn key(b: u8) -> PlayerKey {
    PlayerKey::new([b; 32])
}

fn new_game() -> Game {
    Game::new(key(1), key(2))
}

fn same_board(a: &Game, b: &Game) -> bool {
    for r in 0..3u8 {
        for c in 0..3u8 {
            if a.cell(r, c) != b.cell(r, c) {
                return false;
            }
        }
    }
    true
}

fn snapshot(g: &Game) -> (u8, GameState, Vec<Option<Sign>>) {
    let mut cells = Vec::new();
    for r in 0..3u8 {
        for c in 0..3u8 {
            cells.push(g.cell(r, c));
        }
    }
    (g.turn(), g.state(), cells)
}

#[test]
fn new_game_is_active_on_turn_one() {
    let g = new_game();
    assert!(g.is_active());
    assert_eq!(g.turn(), 1);
    assert_eq!(g.state(), GameState::Active);
    assert_eq!(g.players(), [key(1), key(2)]);
    for r in 0..3u8 {
        for c in 0..3u8 {
            assert_eq!(g.cell(r, c), None);
        }
    }
}

#[test]
fn every_empty_cell_accepts_the_movers_mark() {
    for r in 0..3u8 {
        for c in 0..3u8 {
            let mut g = new_game();
            assert_eq!(g.play(&Tile::new(r, c)), Ok(()));
            assert_eq!(g.cell(r, c), Some(Sign::X));
            assert_eq!(g.turn(), 2);
            let (r2, c2) = if r == 2 { (0, c) } else { (r + 1, c) };
            assert_eq!(g.play(&Tile::new(r2, c2)), Ok(()));
            assert_eq!(g.cell(r2, c2), Some(Sign::O));
            assert_eq!(g.turn(), 3);
        }
    }
}

#[test]
fn same_cell_twice_is_rejected() {
    let mut g = new_game();
    assert_eq!(g.play(&Tile::new(1, 1)), Ok(()));
    let before = snapshot(&g);
    assert_eq!(g.play(&Tile::new(1, 1)), Err(TicTacToeError::TileAlreadySet));
    assert_eq!(snapshot(&g), before);
    assert_eq!(g.cell(1, 1), Some(Sign::X));
}

#[test]
fn out_of_bounds_is_rejected() {
    let mut g = new_game();
    let before = snapshot(&g);
    assert_eq!(g.play(&Tile::new(3, 0)), Err(TicTacToeError::TileOutOfBounds));
    assert_eq!(g.play(&Tile::new(0, 3)), Err(TicTacToeError::TileOutOfBounds));
    assert_eq!(g.play(&Tile::new(255, 255)), Err(TicTacToeError::TileOutOfBounds));
    assert_eq!(snapshot(&g), before);
}

#[test]
fn wrong_actor_is_rejected() {
    let mut accounts = Play { game: new_game(), player: key(2) };
    let before = snapshot(&accounts.game);
    assert_eq!(play(&mut accounts, Tile::new(0, 0)), Err(TicTacToeError::NotPlayersTurn));
    assert_eq!(snapshot(&accounts.game), before);
    accounts.player = key(9);
    assert_eq!(play(&mut accounts, Tile::new(0, 0)), Err(TicTacToeError::NotPlayersTurn));
    assert_eq!(snapshot(&accounts.game), before);
    accounts.player = key(1);
    assert_eq!(play(&mut accounts, Tile::new(0, 0)), Ok(()));
    assert_eq!(play(&mut accounts, Tile::new(1, 0)), Err(TicTacToeError::NotPlayersTurn));
}

#[test]
fn keys_differing_in_one_byte_are_different_players() {
    let mut bytes = [1u8; 32];
    bytes[31] = 0;
    let mut accounts = Play { game: new_game(), player: PlayerKey::new(bytes) };
    assert_eq!(play(&mut accounts, Tile::new(0, 0)), Err(TicTacToeError::NotPlayersTurn));
    assert!(PlayerKey::new(bytes) != key(1));
    assert!(key(1) == key(1));
}

fn play_moves(accounts: &mut Play, moves: &[(u8, u8)]) {
    for (i, &(r, c)) in moves.iter().enumerate() {
        accounts.player = if i % 2 == 0 { key(1) } else { key(2) };
        assert_eq!(play(accounts, Tile::new(r, c)), Ok(()));
    }
}

#[test]
fn win_by_row() {
    let mut accounts = Play { game: new_game(), player: key(1) };
    play_moves(&mut accounts, &[(0, 0), (1, 0), (0, 1), (1, 1)]);
    assert!(accounts.game.is_active());
    accounts.player = key(1);
    assert_eq!(play(&mut accounts, Tile::new(0, 2)), Ok(()));
    assert_eq!(accounts.game.state(), GameState::Won { winner: key(1) });
    assert!(!accounts.game.is_active());
    assert_eq!(accounts.game.turn(), 5);
}

#[test]
fn win_by_column_for_second_player() {
    let mut g = new_game();
    for &(r, c) in &[(0, 0), (0, 1), (1, 0), (1, 1), (2, 2), (2, 1)] {
        assert_eq!(g.play(&Tile::new(r, c)), Ok(()));
    }
    assert_eq!(g.state(), GameState::Won { winner: key(2) });
    assert_eq!(g.turn(), 6);
}

#[test]
fn win_by_anti_diagonal() {
    let mut g = new_game();
    for &(r, c) in &[(0, 2), (0, 0), (1, 1), (0, 1), (2, 0)] {
        assert_eq!(g.play(&Tile::new(r, c)), Ok(()));
    }
    assert_eq!(g.state(), GameState::Won { winner: key(1) });
}

#[test]
fn full_board_tie() {
    // X O X / X O O / O X X
    let mut accounts = Play { game: new_game(), player: key(1) };
    play_moves(
        &mut accounts,
        &[(0, 0), (0, 1), (0, 2), (1, 1), (1, 0), (1, 2), (2, 1), (2, 0)],
    );
    assert!(accounts.game.is_active());
    assert_eq!(accounts.game.turn(), 9);
    accounts.player = key(1);
    assert_eq!(play(&mut accounts, Tile::new(2, 2)), Ok(()));
    assert_eq!(accounts.game.state(), GameState::Tie);
    assert_eq!(accounts.game.turn(), 9);
}

#[test]
fn win_on_last_cell_is_a_win() {
    // X O X / O X O / O X X: last move X at (2,2) completes the main diagonal.
    let mut g = new_game();
    for &(r, c) in &[(0, 0), (0, 1), (0, 2), (1, 0), (1, 1), (1, 2), (2, 1), (2, 0)] {
        assert_eq!(g.play(&Tile::new(r, c)), Ok(()));
    }
    assert!(g.is_active());
    assert_eq!(g.play(&Tile::new(2, 2)), Ok(()));
    assert_eq!(g.state(), GameState::Won { winner: key(1) });
    assert_eq!(g.turn(), 9);
}

#[test]
fn turn_alternation() {
    let mut setup = SetupGame { global_state: GlobalState { game_count: 0 }, player_one: key(1) };
    let (game, _) = setup_game(&mut setup, key(2));
    let mut accounts = Play { game, player: key(1) };
    assert_eq!(accounts.game.current_player(), key(1));
    assert_eq!(play(&mut accounts, Tile::new(0, 0)), Ok(()));
    assert_eq!(accounts.game.current_player(), key(2));
    accounts.player = key(2);
    assert_eq!(play(&mut accounts, Tile::new(1, 1)), Ok(()));
    assert_eq!(accounts.game.current_player(), key(1));
}

#[test]
fn finished_game_rejects_every_move() {
    let mut g = new_game();
    for &(r, c) in &[(0, 0), (1, 0), (0, 1), (1, 1), (0, 2)] {
        assert_eq!(g.play(&Tile::new(r, c)), Ok(()));
    }
    let before = snapshot(&g);
    assert_eq!(g.play(&Tile::new(2, 2)), Err(TicTacToeError::GameAlreadyOver));
    assert_eq!(g.play(&Tile::new(0, 0)), Err(TicTacToeError::GameAlreadyOver));
    assert_eq!(g.play(&Tile::new(7, 7)), Err(TicTacToeError::GameAlreadyOver));
    assert_eq!(snapshot(&g), before);
    let mut accounts = Play { game: g, player: key(1) };
    assert_eq!(play(&mut accounts, Tile::new(2, 2)), Err(TicTacToeError::GameAlreadyOver));
}

#[test]
fn counter_advances_by_one_per_game() {
    let mut init = InitializeGlobalState { global_state: GlobalState { game_count: 42 } };
    initialize_global_state(&mut init);
    assert_eq!(init.global_state.game_count, 0);
    let mut setup = SetupGame { global_state: init.global_state, player_one: key(1) };
    let (g1, id1) = setup_game(&mut setup, key(2));
    assert_eq!(id1, 0);
    assert_eq!(setup.global_state.game_count, 1);
    let (g2, id2) = setup_game(&mut setup, key(2));
    assert_eq!(id2, 1);
    assert_eq!(setup.global_state.game_count, 2);
    assert!(same_board(&g1, &g2));
    assert_eq!(g1.players(), [key(1), key(2)]);
    assert_eq!(g1.turn(), 1);
}

#[test]
fn next_id_returns_then_advances() {
    let mut s = GlobalState { game_count: 7 };
    assert_eq!(s.next_id(), 7);
    assert_eq!(s.game_count, 8);
}

#[test]
fn start_game_changes_nothing() {
    let mut g = new_game();
    assert_eq!(g.play(&Tile::new(2, 1)), Ok(()));
    let before = snapshot(&g);
    let mut accounts = StartGame { game: g };
    assert_eq!(start_game(&mut accounts), Ok(()));
    assert_eq!(snapshot(&accounts.game), before);
}

#[test]
fn sign_from_index() {
    assert_eq!(Sign::from_index(0), Some(Sign::X));
    assert_eq!(Sign::from_index(1), Some(Sign::O));
    assert_eq!(Sign::from_index(2), None);
}

#[test]
fn record_round_trip() {
    let mut g = new_game();
    for &(r, c) in &[(0, 0), (1, 0), (0, 1)] {
        assert_eq!(g.play(&Tile::new(r, c)), Ok(()));
    }
    let rows = g.board_rows();
    assert_eq!(rows[0], [Some(Sign::X), Some(Sign::X), None]);
    assert_eq!(rows[1], [Some(Sign::O), None, None]);
    assert_eq!(rows[2], [None, None, None]);
    let back = Game::from_record(g.players(), g.turn(), rows, g.state()).unwrap();
    assert_eq!(snapshot(&back), snapshot(&g));
    assert_eq!(back.current_player(), key(2));
}

#[test]
fn record_that_no_game_reaches_is_refused() {
    let empty = [[None; 3]; 3];
    let players = [key(1), key(2)];
    assert!(Game::from_record(players, 1, empty, GameState::Active).is_some());
    assert!(Game::from_record(players, 0, empty, GameState::Active).is_none());
    assert!(Game::from_record(players, 10, empty, GameState::Active).is_none());
    assert!(Game::from_record(players, 2, empty, GameState::Active).is_none());
    assert!(Game::from_record(players, 1, empty, GameState::Tie).is_none());
    assert!(Game::from_record(players, 1, empty, GameState::Won { winner: key(1) }).is_none());
    let x = Some(Sign::X);
    let o = Some(Sign::O);
    let won = [[x, x, x], [o, o, None], [None, None, None]];
    assert!(Game::from_record(players, 5, won, GameState::Won { winner: key(1) }).is_some());
    assert!(Game::from_record(players, 5, won, GameState::Won { winner: key(2) }).is_none());
    assert!(Game::from_record(players, 5, won, GameState::Active).is_none());
    let tie = [[x, o, x], [x, o, o], [o, x, x]];
    assert!(Game::from_record(players, 9, tie, GameState::Tie).is_some());
    assert!(Game::from_record(players, 9, tie, GameState::Active).is_none());
}

//! One game's state and the move transition.
use vstd::prelude::*;

use crate::board::{
    cell_index, column_complete, diagonal_complete, has_winning_line, is_full,
    lemma_count_after_fill, lemma_full_iff_count, mark_count, occupied, row_complete, trio_complete, Sign,
    CELLS, SIDE,
};

verus! {

/// The 32-byte identity of a player.
#[derive(Clone, Copy, Debug)]
pub struct PlayerKey {
    pub bytes: [u8; 32],
}

impl PlayerKey {
    /// The key with the given bytes.
    pub fn new(bytes: [u8; 32]) -> (r: PlayerKey)
        ensures
            r.bytes == bytes,
    {
        PlayerKey { bytes }
    }
}

impl View for PlayerKey {
    type V = Seq<u8>;

    open spec fn view(&self) -> Seq<u8> {
        self.bytes@
    }
}

impl PartialEq for PlayerKey {
    fn eq(&self, other: &PlayerKey) -> (r: bool) {
        let mut i: usize = 0;
        while i < 32
            invariant
                0 <= i <= 32,
                self.bytes@.len() == 32,
                other.bytes@.len() == 32,
                forall|j: int| 0 <= j < i ==> self.bytes@[j] == other.bytes@[j],
            decreases 32 - i,
        {
            if self.bytes[i] != other.bytes[i] {
                return false;
            }
            i = i + 1;
        }
        assert(self.bytes@ =~= other.bytes@);
        true
    }
}

impl vstd::std_specs::cmp::PartialEqSpecImpl for PlayerKey {
    open spec fn obeys_eq_spec() -> bool {
        true
    }

    open spec fn eq_spec(&self, other: &PlayerKey) -> bool {
        self@ == other@
    }
}

impl Eq for PlayerKey {}

/// Where a game stands.
#[derive(Clone, Copy, Debug, PartialEq, Eq)]
pub enum GameState {
    Active,
    Tie,
    Won { winner: PlayerKey },
}

/// A move request: the cell at `(row, column)`.
#[derive(Clone, Copy, Debug, PartialEq, Eq, Structural)]
pub struct Tile {
    pub row: u8,
    pub column: u8,
}

impl Tile {
    /// The move request for the cell at `(row, column)`.
    pub fn new(row: u8, column: u8) -> (r: Tile)
        ensures
            r == (Tile { row, column }),
    {
        Tile { row, column }
    }

    /// Both coordinates lie on the board.
    pub open spec fn in_bounds(self) -> bool {
        self.row < 3 && self.column < 3
    }
}

/// Why a move was refused.
#[derive(Clone, Copy, Debug, PartialEq, Eq, Structural)]
pub enum TicTacToeError {
    GameAlreadyOver,
    NotPlayersTurn,
    TileAlreadySet,
    TileOutOfBounds,
}

/// The mathematical value of a game: its players, the 1-based turn, the
/// row-major board and the state.
pub struct GameView {
    pub players: Seq<PlayerKey>,
    pub turn: int,
    pub board: Seq<Option<Sign>>,
    pub state: GameState,
}

/// The state that a board decides when `mover` has just placed a mark.
pub open spec fn outcome(board: Seq<Option<Sign>>, mover: PlayerKey) -> GameState {
    if has_winning_line(board) {
        GameState::Won { winner: mover }
    } else if is_full(board) {
        GameState::Tie
    } else {
        GameState::Active
    }
}

impl GameView {
    /// A fresh game between the two players: turn 1, empty board, active.
    pub open spec fn initial(player_one: PlayerKey, player_two: PlayerKey) -> GameView {
        GameView {
            players: seq![player_one, player_two],
            turn: 1,
            board: Seq::new(9, |i: int| None),
            state: GameState::Active,
        }
    }

    /// Zero-based index of the player whose turn it is.
    pub open spec fn current_player_index(self) -> int {
        (self.turn - 1) % 2
    }

    /// The player whose turn it is.
    pub open spec fn current_player(self) -> PlayerKey {
        self.players[self.current_player_index()]
    }

    /// The mark placed on the current turn.
    pub open spec fn current_sign(self) -> Sign {
        Sign::of_index_spec(self.current_player_index())
    }

    /// The cell at `(row, column)`.
    pub open spec fn cell(self, row: int, column: int) -> Option<Sign> {
        self.board[cell_index(row, column)]
    }

    /// Invariant of every reachable game: the turn counts the marks placed
    /// (the move that ends the game does not advance it), and the state is
    /// what the board decides for the player of the current turn.
    pub open spec fn wf(self) -> bool {
        &&& self.players.len() == 2
        &&& self.board.len() == 9
        &&& 1 <= self.turn <= 9
        &&& mark_count(self.board) == if self.state is Active {
            self.turn - 1
        } else {
            self.turn
        }
        &&& self.state == outcome(self.board, self.current_player())
    }

    /// The game after the current player claims `tile`, or the error that
    /// refuses the move. Checks come in this order: game over, bounds,
    /// occupied cell.
    pub open spec fn step(self, tile: Tile) -> Result<GameView, TicTacToeError> {
        if !(self.state is Active) {
            Err(TicTacToeError::GameAlreadyOver)
        } else if !tile.in_bounds() {
            Err(TicTacToeError::TileOutOfBounds)
        } else if self.cell(tile.row as int, tile.column as int) is Some {
            Err(TicTacToeError::TileAlreadySet)
        } else {
            let board = self.board.update(
                cell_index(tile.row as int, tile.column as int),
                Some(self.current_sign()),
            );
            let state = outcome(board, self.current_player());
            Ok(
                GameView {
                    players: self.players,
                    turn: if state is Active {
                        self.turn + 1
                    } else {
                        self.turn
                    },
                    board,
                    state,
                },
            )
        }
    }

    /// The move of `tile` by `actor`: refused with `NotPlayersTurn` unless
    /// `actor` is the current player, else as `step`.
    pub open spec fn step_as(self, actor: PlayerKey, tile: Tile) -> Result<
        GameView,
        TicTacToeError,
    > {
        if actor@ != self.current_player()@ {
            Err(TicTacToeError::NotPlayersTurn)
        } else {
            self.step(tile)
        }
    }
}

/// `a` and `b` are the same state, winners compared by their bytes.
pub open spec fn same_state(a: GameState, b: GameState) -> bool {
    match (a, b) {
        (GameState::Won { winner: x }, GameState::Won { winner: y }) => x@ == y@,
        _ => a == b,
    }
}

/// The row-major sequence of the cells of a 3x3 grid.
pub open spec fn flatten(rows: [[Option<Sign>; 3]; 3]) -> Seq<Option<Sign>> {
    Seq::new(9, |i: int| rows@[i / 3]@[i % 3])
}

/// The fields of a stored record describe a reachable game: the invariant of
/// `GameView::wf`, with the winner compared by its bytes.
pub open spec fn record_ok(
    players: Seq<PlayerKey>,
    turn: int,
    board: Seq<Option<Sign>>,
    state: GameState,
) -> bool {
    &&& 1 <= turn <= 9
    &&& mark_count(board) == if state is Active {
        turn - 1
    } else {
        turn
    }
    &&& same_state(state, outcome(board, players[(turn - 1) % 2]))
}

/// One game: two players, the turn counter, the board and the outcome.
pub struct Game {
    players: [PlayerKey; 2],
    turn: u8,
    board: [Option<Sign>; 9],
    state: GameState,
}

impl View for Game {
    type V = GameView;

    closed spec fn view(&self) -> GameView {
        GameView {
            players: self.players@,
            turn: self.turn as int,
            board: self.board@,
            state: self.state,
        }
    }
}

/// 1 for an occupied cell, 0 for an empty one.
fn occupied_count(cell: Option<Sign>) -> (r: u8)
    ensures
        r == occupied(cell),
{
    match cell {
        Some(_) => 1,
        None => 0,
    }
}

impl Game {
    /// The game is one that play can reach.
    pub open spec fn wf(&self) -> bool {
        self@.wf()
    }

    /// Starts a game between `player_one` and `player_two`.
    pub fn new(player_one: PlayerKey, player_two: PlayerKey) -> (r: Game)
        ensures
            r@ == GameView::initial(player_one, player_two),
            r.wf(),
    {
        let g = Game { players: [player_one, player_two], turn: 1, board: [None; 9], state: GameState::Active };
        assert(g@.players =~= seq![player_one, player_two]);
        assert(g@.board =~= Seq::new(9, |i: int| None::<Sign>));
        proof {
            let b = g@.board;
            assert(!row_complete(b, 0) && !row_complete(b, 1) && !row_complete(b, 2));
            assert(!column_complete(b, 0) && !column_complete(b, 1) && !column_complete(b, 2));
            assert(b[0] is None);
        }
        g
    }

    /// Rebuilds a game from the fields of a stored record; `None` where they
    /// do not describe a reachable game.
    pub fn from_record(
        players: [PlayerKey; 2],
        turn: u8,
        board: [[Option<Sign>; 3]; 3],
        state: GameState,
    ) -> (r: Option<Game>)
        ensures
            r is Some <==> record_ok(players@, turn as int, flatten(board), state),
            r matches Some(g) ==> {
                &&& g.wf()
                &&& g@.players == players@
                &&& g@.turn == turn
                &&& g@.board == flatten(board)
                &&& same_state(g@.state, state)
            },
    {
        if turn < 1 || turn > 9 {
            return None;
        }
        let cells = [
            board[0][0],
            board[0][1],
            board[0][2],
            board[1][0],
            board[1][1],
            board[1][2],
            board[2][0],
            board[2][1],
            board[2][2],
        ];
        assert(cells@ =~= flatten(board));
        let mut g = Game { players, turn, board: cells, state: GameState::Active };
        let count = g.count_marks();
        let won = g.any_line_complete();
        let open = g.has_empty_cell();
        let mover = g.players[g.current_player_index()];
        proof {
            lemma_full_iff_count(g@.board);
        }
        match state {
            GameState::Active => {
                if won || !open || count != turn - 1 {
                    return None;
                }
            },
            GameState::Tie => {
                if won || open || count != turn {
                    return None;
                }
                g.state = GameState::Tie;
            },
            GameState::Won { winner } => {
                if !won || count != turn || winner != mover {
                    return None;
                }
                g.state = GameState::Won { winner: mover };
            },
        }
        Some(g)
    }

    /// Number of occupied cells.
    fn count_marks(&self) -> (r: u8)
        ensures
            r == mark_count(self@.board),
    {
        occupied_count(self.board[0]) + occupied_count(self.board[1]) + occupied_count(
            self.board[2],
        ) + occupied_count(self.board[3]) + occupied_count(self.board[4]) + occupied_count(
            self.board[5],
        ) + occupied_count(self.board[6]) + occupied_count(self.board[7]) + occupied_count(
            self.board[8],
        )
    }

    /// The board as three rows of three cells.
    pub fn board_rows(&self) -> (r: [[Option<Sign>; 3]; 3])
        ensures
            flatten(r) == self@.board,
    {
        let b = self.board;
        let r = [[b[0], b[1], b[2]], [b[3], b[4], b[5]], [b[6], b[7], b[8]]];
        assert(flatten(r) =~= self@.board);
        r
    }

    /// The game is still in progress.
    pub fn is_active(&self) -> (r: bool)
        ensures
            r == (self@.state is Active),
    {
        match self.state {
            GameState::Active => true,
            _ => false,
        }
    }

    fn current_player_index(&self) -> (r: usize)
        requires
            self@.turn >= 1,
        ensures
            r == self@.current_player_index(),
            r < 2,
    {
        ((self.turn - 1) % 2) as usize
    }

    /// The player whose turn it is.
    pub fn current_player(&self) -> (r: PlayerKey)
        requires
            self.wf(),
        ensures
            r == self@.current_player(),
    {
        self.players[self.current_player_index()]
    }

    /// The turn counter: 1 before the first move.
    pub fn turn(&self) -> (r: u8)
        ensures
            r == self@.turn,
    {
        self.turn
    }

    /// The state of the game.
    pub fn state(&self) -> (r: GameState)
        ensures
            r == self@.state,
    {
        self.state
    }

    /// The two players, first mover first.
    pub fn players(&self) -> (r: [PlayerKey; 2])
        ensures
            r@ == self@.players,
    {
        self.players
    }

    /// The mark in the cell at `(row, column)`, if any.
    pub fn cell(&self, row: u8, column: u8) -> (r: Option<Sign>)
        requires
            row < 3,
            column < 3,
        ensures
            r == self@.cell(row as int, column as int),
    {
        self.board[(row as usize) * 3 + (column as usize)]
    }
}

impl Game {
    /// Claims `tile` for the current player, then settles the outcome: the
    /// turn advances only while the game stays active. A refused move
    /// changes nothing.
    pub fn play(&mut self, tile: &Tile) -> (r: Result<(), TicTacToeError>)
        requires
            old(self).wf(),
        ensures
            final(self).wf(),
            match old(self)@.step(*tile) {
                Ok(g) => r is Ok && final(self)@ == g,
                Err(e) => r == Err::<(), TicTacToeError>(e) && final(self)@ == old(self)@,
            },
            r is Err ==> final(self)@ == old(self)@,
    {
        if !self.is_active() {
            return Err(TicTacToeError::GameAlreadyOver);
        }
        if tile.row >= SIDE || tile.column >= SIDE {
            return Err(TicTacToeError::TileOutOfBounds);
        }
        let idx = (tile.row as usize) * 3 + (tile.column as usize);
        if self.board[idx].is_some() {
            return Err(TicTacToeError::TileAlreadySet);
        }
        let sign = Sign::from_index(self.current_player_index()).unwrap();
        self.board[idx] = Some(sign);
        proof {
            lemma_count_after_fill(old(self)@.board, idx as int, sign);
        }
        self.update_state();
        proof {
            lemma_full_iff_count(self@.board);
        }
        if self.is_active() {
            self.turn = self.turn + 1;
        }
        Ok(())
    }

    /// Tells whether three cells hold the same mark.
    fn is_winning_trio(&self, trio: [(usize, usize); 3]) -> (r: bool)
        requires
            forall|k: int| 0 <= k < 3 ==> (#[trigger] trio@[k]).0 < 3 && trio@[k].1 < 3,
        ensures
            r == trio_complete(
                self@.board,
                cell_index(trio@[0].0 as int, trio@[0].1 as int),
                cell_index(trio@[1].0 as int, trio@[1].1 as int),
                cell_index(trio@[2].0 as int, trio@[2].1 as int),
            ),
    {
        let first = trio[0];
        let second = trio[1];
        let third = trio[2];
        let a = self.board[first.0 * 3 + first.1];
        let b = self.board[second.0 * 3 + second.1];
        let c = self.board[third.0 * 3 + third.1];
        match (a, b, c) {
            (Some(x), Some(y), Some(z)) => x == y && x == z,
            _ => false,
        }
    }

    /// Tells whether some row, column or diagonal is completed by one mark.
    fn any_line_complete(&self) -> (r: bool)
        ensures
            r == has_winning_line(self@.board),
    {
        let mut i: usize = 0;
        while i < 3
            invariant
                0 <= i <= 3,
                forall|j: int|
                    0 <= j < i ==> !row_complete(self@.board, j) && !column_complete(
                        self@.board,
                        j,
                    ),
            decreases 3 - i,
        {
            if self.is_winning_trio([(i, 0), (i, 1), (i, 2)]) {
                assert(row_complete(self@.board, i as int));
                return true;
            }
            if self.is_winning_trio([(0, i), (1, i), (2, i)]) {
                assert(column_complete(self@.board, i as int));
                return true;
            }
            i = i + 1;
        }
        let d = self.is_winning_trio([(0, 0), (1, 1), (2, 2)]) || self.is_winning_trio(
            [(0, 2), (1, 1), (2, 0)],
        );
        assert(d == diagonal_complete(self@.board));
        d
    }

    /// Tells whether some cell is still empty.
    fn has_empty_cell(&self) -> (r: bool)
        ensures
            r == !is_full(self@.board),
    {
        let mut i: usize = 0;
        while i < CELLS
            invariant
                0 <= i <= 9,
                forall|j: int| 0 <= j < i ==> (#[trigger] self@.board[j]) is Some,
            decreases 9 - i,
        {
            if self.board[i].is_none() {
                return true;
            }
            i = i + 1;
        }
        false
    }

    /// Settles the state of an active game after a mark has been placed: won
    /// by the player of the current turn if a line is complete, a tie if the
    /// board is full, else still active.
    fn update_state(&mut self)
        requires
            old(self)@.turn >= 1,
            old(self)@.state is Active,
        ensures
            final(self)@ == (GameView { state: outcome(old(self)@.board, old(self)@.current_player()), ..old(self)@ }),
    {
        if self.any_line_complete() {
            let winner = self.players[self.current_player_index()];
            self.state = GameState::Won { winner };
        } else if !self.has_empty_cell() {
            self.state = GameState::Tie;
        }
    }
}

} // verus!

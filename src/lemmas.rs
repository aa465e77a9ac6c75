//! Laws of the move transition, stated over `GameView::step` and
//! `GameView::step_as`, which `Game::play` and `play` follow exactly.
use vstd::prelude::*;

use crate::game::{GameState, GameView, PlayerKey, Tile, TicTacToeError};

verus! {

/// On an active game, claiming any empty cell on the board succeeds, and the
/// cell then holds the mover's mark.
pub proof fn lemma_empty_cell_accepted(g: GameView, tile: Tile)
    requires
        g.wf(),
        g.state is Active,
        tile.in_bounds(),
        g.cell(tile.row as int, tile.column as int) is None,
    ensures
        g.step(tile) is Ok,
        g.step(tile)->Ok_0.cell(tile.row as int, tile.column as int) == Some(g.current_sign()),
        g.step_as(g.current_player(), tile) == g.step(tile),
{
}

/// Claiming the same cell a second time, while the game goes on, is refused
/// with `TileAlreadySet`.
pub proof fn lemma_second_claim_rejected(g: GameView, tile: Tile)
    requires
        g.wf(),
        g.state is Active,
        tile.in_bounds(),
        g.cell(tile.row as int, tile.column as int) is None,
        g.step(tile) is Ok,
        g.step(tile)->Ok_0.state is Active,
    ensures
        g.step(tile)->Ok_0.step(tile) == Err::<GameView, TicTacToeError>(
            TicTacToeError::TileAlreadySet,
        ),
{
}

/// On an active game, a cell off the board is refused with `TileOutOfBounds`.
pub proof fn lemma_out_of_bounds_rejected(g: GameView, tile: Tile)
    requires
        g.state is Active,
        !tile.in_bounds(),
    ensures
        g.step(tile) == Err::<GameView, TicTacToeError>(TicTacToeError::TileOutOfBounds),
{
}

/// A move by anyone but the current player is refused with `NotPlayersTurn`.
pub proof fn lemma_wrong_actor_rejected(g: GameView, actor: PlayerKey, tile: Tile)
    requires
        actor@ != g.current_player()@,
    ensures
        g.step_as(actor, tile) == Err::<GameView, TicTacToeError>(TicTacToeError::NotPlayersTurn),
{
}

/// Once a game is won or tied, every move of the current player is refused
/// with `GameAlreadyOver`.
pub proof fn lemma_finished_game_rejected(g: GameView, tile: Tile)
    requires
        !(g.state is Active),
    ensures
        g.step(tile) == Err::<GameView, TicTacToeError>(TicTacToeError::GameAlreadyOver),
        g.step_as(g.current_player(), tile) == Err::<GameView, TicTacToeError>(
            TicTacToeError::GameAlreadyOver,
        ),
{
}

/// A move of an active game either keeps it active and advances the turn by
/// one, or ends it with the turn left as it was; a win goes to the mover.
pub proof fn lemma_turn_advances_only_while_active(g: GameView, tile: Tile)
    requires
        g.wf(),
        g.step(tile) is Ok,
    ensures
        g.step(tile)->Ok_0.state is Active ==> g.step(tile)->Ok_0.turn == g.turn + 1,
        !(g.step(tile)->Ok_0.state is Active) ==> g.step(tile)->Ok_0.turn == g.turn,
        g.step(tile)->Ok_0.state is Won ==> g.step(tile)->Ok_0.state == (GameState::Won {
            winner: g.current_player(),
        }),
{
}

} // verus!

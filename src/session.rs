//! The operations offered to callers: the session registry and the guarded
//! move. Each operation takes the records it works on, already loaded, and
//! the identity of the actor that invoked it.
use vstd::prelude::*;

use crate::game::{Game, GameView, PlayerKey, Tile, TicTacToeError};

verus! {

/// The session registry: counts the games created so far, so that each new
/// game gets a session number that no other game had.
#[derive(Clone, Copy, Debug, PartialEq, Eq, Structural)]
pub struct GlobalState {
    pub game_count: u64,
}

impl GlobalState {
    /// Hands out the current session number and advances the counter.
    pub fn next_id(&mut self) -> (r: u64)
        requires
            old(self).game_count < u64::MAX,
        ensures
            r == old(self).game_count,
            final(self).game_count == old(self).game_count + 1,
    {
        let id = self.game_count;
        self.game_count = id + 1;
        id
    }
}

/// The records that `initialize_global_state` works on.
pub struct InitializeGlobalState {
    pub global_state: GlobalState,
}

/// The records that `setup_game` works on: the registry and the identity of
/// the authenticated caller, who becomes the first player.
pub struct SetupGame {
    pub global_state: GlobalState,
    pub player_one: PlayerKey,
}

/// The record that `start_game` works on.
pub struct StartGame {
    pub game: Game,
}

/// The records that `play` works on: the game and the authenticated actor.
pub struct Play {
    pub game: Game,
    pub player: PlayerKey,
}

/// Sets the registry's counter to zero.
pub fn initialize_global_state(accounts: &mut InitializeGlobalState)
    ensures
        final(accounts).global_state.game_count == 0,
{
    accounts.global_state.game_count = 0;
}

/// Creates a game between the caller and `player_two`, and advances the
/// registry by exactly one. Returns the game with the session number it was
/// created under.
pub fn setup_game(accounts: &mut SetupGame, player_two: PlayerKey) -> (r: (Game, u64))
    requires
        old(accounts).global_state.game_count < u64::MAX,
    ensures
        r.0@ == GameView::initial(old(accounts).player_one, player_two),
        r.0.wf(),
        r.1 == old(accounts).global_state.game_count,
        final(accounts).global_state.game_count == old(accounts).global_state.game_count + 1,
        final(accounts).player_one == old(accounts).player_one,
{
    let game = Game::new(accounts.player_one, player_two);
    let id = accounts.global_state.next_id();
    (game, id)
}

/// Hook run once a game's record exists; it changes nothing.
pub fn start_game(accounts: &mut StartGame) -> (r: Result<(), TicTacToeError>)
    ensures
        r is Ok,
        final(accounts).game@ == old(accounts).game@,
{
    Ok(())
}

/// A move by `accounts.player`: refused with `NotPlayersTurn` unless that
/// actor is the current player, else as `Game::play`.
pub fn play(accounts: &mut Play, tile: Tile) -> (r: Result<(), TicTacToeError>)
    requires
        old(accounts).game.wf(),
    ensures
        final(accounts).game.wf(),
        final(accounts).player == old(accounts).player,
        match old(accounts).game@.step_as(old(accounts).player, tile) {
            Ok(g) => r is Ok && final(accounts).game@ == g,
            Err(e) => r == Err::<(), TicTacToeError>(e) && final(accounts).game@ == old(
                accounts,
            ).game@,
        },
        r is Err ==> final(accounts).game@ == old(accounts).game@,
{
    let expected = accounts.game.current_player();
    if accounts.player != expected {
        return Err(TicTacToeError::NotPlayersTurn);
    }
    accounts.game.play(&tile)
}

} // verus!

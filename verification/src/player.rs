//! One participant of the game: a name, a position on the track and the
//! number of turns taken so far.

use vstd::prelude::*;

verus! {

/// A player. The position is an index into the board's cells; the turn
/// counter only ever grows.
pub struct Player {
    name: String,
    idx: usize,
    moves: usize,
}

/// What a [`Player`] stands for in contracts.
pub ghost struct PlayerView {
    pub name: Seq<char>,
    pub position: int,
    pub moves: int,
}

impl View for Player {
    type V = PlayerView;

    closed spec fn view(&self) -> PlayerView {
        PlayerView { name: self.name@, position: self.idx as int, moves: self.moves as int }
    }
}

impl Player {
    /// Creates a player who stands on the first cell and has taken no turn.
    pub fn new(name: &str) -> (player: Player)
        ensures
            player@ == (PlayerView { name: name@, position: 0, moves: 0 }),
    {
        Player { name: name.to_owned(), idx: 0, moves: 0 }
    }

    /// Creates a player who stands on cell `idx` and has taken no turn.
    pub fn new_with_idx(name: &str, idx: usize) -> (player: Player)
        ensures
            player@ == (PlayerView { name: name@, position: idx as int, moves: 0 }),
    {
        let mut player = Player::new(name);
        player.idx = idx;
        player
    }

    /// The player's name.
    pub fn get_name(&self) -> (name: String)
        ensures
            name@ == self@.name,
    {
        self.name.clone()
    }

    /// The number of turns the player has taken.
    pub fn get_moves(&self) -> (moves: usize)
        ensures
            moves == self@.moves,
    {
        self.moves
    }

    /// Counts one more turn.
    pub fn increment_moves(&mut self)
        requires
            old(self)@.moves < usize::MAX,
        ensures
            final(self)@ == (PlayerView { moves: old(self)@.moves + 1, ..old(self)@ }),
    {
        self.moves = self.moves + 1;
    }

    /// The index of the cell the player stands on.
    pub fn get_idx(&self) -> (idx: usize)
        ensures
            idx == self@.position,
    {
        self.idx
    }

    /// Puts the player on cell `idx`.
    pub(crate) fn set_idx(&mut self, idx: usize)
        ensures
            final(self)@ == (PlayerView { position: idx as int, ..old(self)@ }),
    {
        self.idx = idx;
    }
}

} // verus!

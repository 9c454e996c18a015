//! A game as it is played at the table: the board everybody knows, and a turn
//! whose roll comes from a die.

use rand::Rng;
use vstd::prelude::*;
use crate::board::{GameBoard, GameCell};
use crate::player::{Player, PlayerView};
use crate::resolver::{play, resolve, wins};
use crate::rules::{MoveRule, MoveToStartRule, Rule};

verus! {

/// Whether `cells` is the standard board: 15 cells, of which cell 2 moves a
/// token 2 cells on, cell 3 moves it 3 cells on, cell 7 moves it 5 cells
/// back, cell 13 sends it to the start, and no other cell carries a rule.
pub open spec fn is_standard_board(cells: Seq<Option<Rule>>) -> bool {
    &&& cells.len() == 15
    &&& cells[2] matches Some(Rule::Move(rule)) && rule.offset() == 2
    &&& cells[3] matches Some(Rule::Move(rule)) && rule.offset() == 3
    &&& cells[7] matches Some(Rule::Move(rule)) && rule.offset() == -5
    &&& cells[13] matches Some(Rule::MoveToStart(_))
    &&& forall|i: int| 0 <= i < 15 && i != 2 && i != 3 && i != 7 && i != 13 ==> cells[i] is None
}

/// Sets up the standard board.
pub fn create_game() -> (game_board: GameBoard)
    ensures
        is_standard_board(game_board@),
{
    let mut game_board = GameBoard::new(15);
    game_board.set_cell_at(3, GameCell::new(Rule::Move(MoveRule::new(3))));
    game_board.set_cell_at(7, GameCell::new(Rule::Move(MoveRule::new(-5))));
    game_board.set_cell_at(2, GameCell::new(Rule::Move(MoveRule::new(2))));
    game_board.set_cell_at(13, GameCell::new(Rule::MoveToStart(MoveToStartRule::new())));
    game_board
}

/// Draws a number at random that is at least `low` and less than `high`.
///
/// Calls `gen_range(low, high)` of `rand::Rng` on the generator that
/// `rand::thread_rng` hands out. `gen_range` draws from the half-open range
/// between its two arguments and panics unless the first is below the
/// second; which number of the range comes back is left open. `thread_rng`
/// ends the program with a panic if the operating system cannot seed the
/// generator; nothing here speaks of that.
#[verifier::external_body]
fn roll_between(low: i32, high: i32) -> (roll: i32)
    requires
        low < high,
    ensures
        low <= roll < high,
{
    rand::thread_rng().gen_range(low, high)
}

/// The lowest face of the die.
pub const LOWEST_ROLL: i32 = 1;

/// The highest face of the die.
pub const HIGHEST_ROLL: i32 = 6;

/// A turn taken with a rolled die: what the die showed, and whether the
/// player has won by it.
pub struct Turn {
    pub dice_roll: i32,
    pub won: bool,
}

/// Rolls the die for `player` and plays the roll. Whatever the die shows, it
/// shows one of its faces, 1 to 6, and the turn is the one that `play` makes
/// of that roll.
pub fn take_turn(game_board: &GameBoard, player: &mut Player) -> (turn: Turn)
    requires
        old(player)@.moves < usize::MAX,
    ensures
        LOWEST_ROLL <= turn.dice_roll <= HIGHEST_ROLL,
        turn.won == wins(game_board@, old(player)@.position, turn.dice_roll as int),
        final(player)@ == (PlayerView {
            position: resolve(game_board@, old(player)@.position, turn.dice_roll as int, 0).position,
            moves: old(player)@.moves + 1,
            ..old(player)@
        }),
        old(player)@.position < game_board@.len() ==> final(player)@.position < game_board@.len(),
{
    let dice_roll = roll_between(LOWEST_ROLL, HIGHEST_ROLL + 1);
    let won = play(game_board, player, dice_roll);
    Turn { dice_roll, won }
}

} // verus!

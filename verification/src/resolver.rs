//! Resolving a move: where a token ends up when it is moved by a number of
//! cells, which rules are applied on the way, and whether the turn is over.

use vstd::prelude::*;
use crate::board::GameBoard;
use crate::player::{Player, PlayerView};
use crate::rules::{GameRule, Rule};

verus! {

/// How many rules one resolution applies before it stops on the next one.
pub const MAX_TRIES: i32 = 2;

/// The result of a resolution: where the token stands, and whether the turn
/// is complete. An incomplete turn waits on an interactive rule.
pub ghost struct Outcome {
    pub position: int,
    pub complete: bool,
}

/// The resolution of a move of `offset` cells by a token on `position`, after
/// `tries` rules have been applied in this turn.
///
/// A target before the first cell puts the token on the first cell. A target
/// behind the last cell leaves the token where it is. Otherwise the token
/// lands on the target. If the cell carries no rule, or `MAX_TRIES` rules
/// have been applied already, the turn ends there. An interactive rule
/// suspends the turn there. A rule whose destination lies behind the last
/// cell is not applied, like any other move past the end: the token stays on
/// the rule's cell and the turn ends. Any other rule sends the token to its
/// destination, from which the resolution goes on with no further offset; a
/// destination before the first cell puts the token on the first cell.
pub open spec fn resolve(cells: Seq<Option<Rule>>, position: int, offset: int, tries: int) -> Outcome
    decreases MAX_TRIES - tries,
{
    let target = position + offset;
    if target < 0 {
        Outcome { position: 0, complete: true }
    } else if target >= cells.len() {
        Outcome { position, complete: true }
    } else {
        match cells[target] {
            None => Outcome { position: target, complete: true },
            Some(rule) => {
                if tries >= MAX_TRIES {
                    Outcome { position: target, complete: true }
                } else if rule.interactive() {
                    Outcome { position: target, complete: false }
                } else if rule.destination(target) >= cells.len() {
                    Outcome { position: target, complete: true }
                } else {
                    resolve(cells, rule.destination(target), 0, tries + 1)
                }
            },
        }
    }
}

/// Whether a roll of `dice_roll` from `position` wins the game: the turn
/// completes, and it completes on the last cell.
pub open spec fn wins(cells: Seq<Option<Rule>>, position: int, dice_roll: int) -> bool {
    let outcome = resolve(cells, position, dice_roll, 0);
    outcome.complete && outcome.position == cells.len() - 1
}

/// Whether `target` is a cell of the board that carries an interactive rule.
pub open spec fn lands_on_interactive_rule(cells: Seq<Option<Rule>>, target: int) -> bool {
    &&& 0 <= target < cells.len()
    &&& cells[target] matches Some(rule) && rule.interactive()
}

/// Moves `player` by `moves` cells on `game_board` and applies the rules the
/// token lands on. Returns whether the turn is complete; if it is not, the
/// token stands on an interactive rule. A player who stands on the board
/// stays on it, whatever rules the board carries.
///
/// `num_of_tries` is the number of rules applied so far in this turn. A call
/// with 0 opens a turn and counts it on the player; a call with any other
/// number continues a turn that has been counted already.
pub fn game_move(player: &mut Player, moves: i32, game_board: &GameBoard, num_of_tries: i32) -> (complete: bool)
    requires
        num_of_tries == 0 ==> old(player)@.moves < usize::MAX,
    ensures
        complete == resolve(game_board@, old(player)@.position, moves as int, num_of_tries as int).complete,
        final(player)@ == (PlayerView {
            position: resolve(game_board@, old(player)@.position, moves as int, num_of_tries as int).position,
            moves: if num_of_tries == 0 { old(player)@.moves + 1 } else { old(player)@.moves },
            ..old(player)@
        }),
        old(player)@.position < game_board@.len() ==> final(player)@.position < game_board@.len(),
        old(player)@.position + moves < 0 ==> complete && final(player)@.position == 0,
        old(player)@.position + moves >= game_board@.len() ==> complete && final(player)@.position
            == old(player)@.position,
        lands_on_interactive_rule(game_board@, old(player)@.position + moves) && num_of_tries < MAX_TRIES
            ==> !complete && final(player)@.position == old(player)@.position + moves,
{
    if num_of_tries == 0 {
        player.increment_moves();
    }
    let length = game_board.get_length();
    let ghost cells = game_board@;
    let ghost goal = resolve(cells, old(player)@.position, moves as int, num_of_tries as int);
    let ghost counted = player@;
    let mut target: i128 = player.get_idx() as i128 + moves as i128;
    let mut tries: i32 = num_of_tries;
    proof {
        if old(player)@.position < cells.len() {
            lemma_token_stays_on_board(cells, old(player)@.position, moves as int, num_of_tries as int);
        }
    }
    loop
        invariant
            cells == game_board@,
            length == cells.len(),
            goal == resolve(cells, old(player)@.position, moves as int, num_of_tries as int),
            old(player)@.position < cells.len() ==> goal.position < cells.len(),
            counted.name == old(player)@.name,
            counted.moves == if num_of_tries == 0 { old(player)@.moves + 1 } else { old(player)@.moves },
            player@.name == counted.name,
            player@.moves == counted.moves,
            resolve(cells, player@.position, target - player@.position, tries as int) == goal,
        decreases MAX_TRIES - tries,
    {
        if target < 0 {
            player.set_idx(0);
            return true;
        }
        if target >= length as i128 {
            return true;
        }
        let landed = target as usize;
        player.set_idx(landed);
        let rule = match game_board.get_cell_rule_at(landed) {
            Some(rule) => rule,
            None => { return true; },
        };
        if tries >= MAX_TRIES {
            return true;
        }
        if rule.is_interactive() {
            return false;
        }
        let destination = rule.apply_rule(landed);
        if destination >= length as i128 {
            return true;
        }
        proof {
            lemma_only_target_counts(cells, destination as int, 0, landed as int, destination - landed, tries + 1);
        }
        target = destination;
        tries = tries + 1;
    }
}

/// Plays one turn of `player` with the given roll of the dice. Returns
/// whether the player has won by it: the turn is complete and the token
/// stands on the last cell. A turn that waits on an interactive rule is never
/// a win.
pub fn play(game_board: &GameBoard, player: &mut Player, dice_roll: i32) -> (won: bool)
    requires
        old(player)@.moves < usize::MAX,
    ensures
        won == wins(game_board@, old(player)@.position, dice_roll as int),
        final(player)@ == (PlayerView {
            position: resolve(game_board@, old(player)@.position, dice_roll as int, 0).position,
            moves: old(player)@.moves + 1,
            ..old(player)@
        }),
        old(player)@.position < game_board@.len() ==> final(player)@.position < game_board@.len(),
{
    let last_move = game_move(player, dice_roll, game_board, 0);
    last_move && player.get_idx() == game_board.get_length() - 1
}

/// A move that would end before the first cell puts the token on the first
/// cell, whatever the board carries, and the turn is complete.
pub proof fn lemma_undershoot_goes_to_start(cells: Seq<Option<Rule>>, position: int, offset: int, tries: int)
    requires
        position + offset < 0,
    ensures
        resolve(cells, position, offset, tries) == (Outcome { position: 0, complete: true }),
{
}

/// A move that would end behind the last cell does not take place: the token
/// stays where it is, whatever the board carries, and the turn is complete.
pub proof fn lemma_overshoot_keeps_position(cells: Seq<Option<Rule>>, position: int, offset: int, tries: int)
    requires
        position + offset >= cells.len(),
    ensures
        resolve(cells, position, offset, tries) == (Outcome { position, complete: true }),
{
}

/// A move onto a cell without a rule ends there, and the turn is complete.
pub proof fn lemma_free_cell_ends_turn(cells: Seq<Option<Rule>>, position: int, offset: int, tries: int)
    requires
        0 <= position + offset < cells.len(),
        cells[position + offset] is None,
    ensures
        resolve(cells, position, offset, tries) == (Outcome { position: position + offset, complete: true }),
{
}

/// Once `MAX_TRIES` rules have been applied in a turn, no further rule is
/// applied: the token stays on the cell it lands on, and the turn is
/// complete.
pub proof fn lemma_last_try_ends_turn(cells: Seq<Option<Rule>>, position: int, offset: int, tries: int)
    requires
        0 <= position + offset < cells.len(),
        tries >= MAX_TRIES,
    ensures
        resolve(cells, position, offset, tries) == (Outcome { position: position + offset, complete: true }),
{
}

/// A move onto an interactive rule, before `MAX_TRIES` rules have been
/// applied, stops on the rule's cell and leaves the turn incomplete: nothing
/// further is resolved until the move is taken up again.
pub proof fn lemma_interactive_rule_suspends(
    cells: Seq<Option<Rule>>,
    position: int,
    offset: int,
    tries: int,
    rule: Rule,
)
    requires
        0 <= position + offset < cells.len(),
        cells[position + offset] == Some(rule),
        rule.interactive(),
        tries < MAX_TRIES,
    ensures
        resolve(cells, position, offset, tries) == (Outcome { position: position + offset, complete: false }),
{
}

/// A move onto a rule that is not interactive and does not lead behind the
/// last cell, before `MAX_TRIES` rules have been applied, is resolved at
/// once: its outcome is that of standing on the rule's destination with one
/// more rule applied.
pub proof fn lemma_rule_is_applied_at_once(
    cells: Seq<Option<Rule>>,
    position: int,
    offset: int,
    tries: int,
    rule: Rule,
)
    requires
        0 <= position + offset < cells.len(),
        cells[position + offset] == Some(rule),
        !rule.interactive(),
        rule.destination(position + offset) < cells.len(),
        tries < MAX_TRIES,
    ensures
        resolve(cells, position, offset, tries) == resolve(
            cells,
            rule.destination(position + offset),
            0,
            tries + 1,
        ),
{
}

/// A move that does not end behind the last cell is resolved by its target
/// alone: two moves to the same target have the same outcome, wherever they
/// start.
pub proof fn lemma_only_target_counts(
    cells: Seq<Option<Rule>>,
    position1: int,
    offset1: int,
    position2: int,
    offset2: int,
    tries: int,
)
    requires
        position1 + offset1 == position2 + offset2,
        position1 + offset1 < cells.len(),
    ensures
        resolve(cells, position1, offset1, tries) == resolve(cells, position2, offset2, tries),
{
}

/// A turn is left incomplete only on a cell of the board that carries an
/// interactive rule.
pub proof fn lemma_suspended_turn_stands_on_interactive_rule(
    cells: Seq<Option<Rule>>,
    position: int,
    offset: int,
    tries: int,
)
    ensures
        !resolve(cells, position, offset, tries).complete ==> {
            let stop = resolve(cells, position, offset, tries).position;
            &&& 0 <= stop < cells.len()
            &&& cells[stop] matches Some(rule) && rule.interactive()
        },
    decreases MAX_TRIES - tries,
{
    let target = position + offset;
    if 0 <= target < cells.len() && tries < MAX_TRIES {
        match cells[target] {
            Some(rule) => {
                if !rule.interactive() && rule.destination(target) < cells.len() {
                    lemma_suspended_turn_stands_on_interactive_rule(
                        cells,
                        rule.destination(target),
                        0,
                        tries + 1,
                    );
                }
            },
            None => {},
        }
    }
}

/// A rule that would send the token behind the last cell is not applied: the
/// token stays on the rule's cell, and the turn is complete.
pub proof fn lemma_rule_past_the_end_is_not_applied(
    cells: Seq<Option<Rule>>,
    position: int,
    offset: int,
    tries: int,
    rule: Rule,
)
    requires
        0 <= position + offset < cells.len(),
        cells[position + offset] == Some(rule),
        !rule.interactive(),
        rule.destination(position + offset) >= cells.len(),
    ensures
        resolve(cells, position, offset, tries) == (Outcome { position: position + offset, complete: true }),
{
}

/// A token that comes to stand on a cell of the board, or before the first
/// cell, ends on a cell of the board, whatever rules the board carries.
proof fn lemma_landing_stays_on_board(cells: Seq<Option<Rule>>, position: int, tries: int)
    requires
        cells.len() >= 1,
        position < cells.len(),
    ensures
        0 <= resolve(cells, position, 0, tries).position < cells.len(),
    decreases MAX_TRIES - tries,
{
    if 0 <= position && tries < MAX_TRIES {
        match cells[position] {
            Some(rule) => {
                if !rule.interactive() && rule.destination(position) < cells.len() {
                    lemma_landing_stays_on_board(cells, rule.destination(position), tries + 1);
                }
            },
            None => {},
        }
    }
}

/// A token that stands on a cell of the board still does after any move,
/// whatever rules the board carries.
pub proof fn lemma_token_stays_on_board(cells: Seq<Option<Rule>>, position: int, offset: int, tries: int)
    requires
        0 <= position < cells.len(),
    ensures
        0 <= resolve(cells, position, offset, tries).position < cells.len(),
{
    if position + offset < cells.len() {
        lemma_only_target_counts(cells, position, offset, position + offset, 0, tries);
        lemma_landing_stays_on_board(cells, position + offset, tries);
    }
}

/// No move takes a token off the board: a move ends behind the last cell
/// only if the token stood there already and has not moved.
pub proof fn lemma_token_leaves_the_board_by_no_move(
    cells: Seq<Option<Rule>>,
    position: int,
    offset: int,
    tries: int,
)
    requires
        cells.len() >= 1,
    ensures
        resolve(cells, position, offset, tries).position >= cells.len() ==> resolve(
            cells,
            position,
            offset,
            tries,
        ).position == position,
{
    if position + offset < cells.len() {
        lemma_only_target_counts(cells, position, offset, position + offset, 0, tries);
        lemma_landing_stays_on_board(cells, position + offset, tries);
    }
}

} // verus!

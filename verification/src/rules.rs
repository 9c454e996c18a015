//! The rules a cell can carry.
//!
//! Every rule answers two questions: where does a token go that lands on the
//! cell, and can that be worked out without asking anybody. Destinations are
//! plain integer arithmetic on the landing index and may fall before the
//! first cell or behind the last one; keeping a token on the board is the
//! business of whoever applies the rule.

use vstd::prelude::*;

verus! {

/// What a rule must be able to do.
pub trait GameRule {
    /// The position a token is sent to from position `idx`.
    spec fn destination(&self, idx: int) -> int;

    /// Whether the rule needs a decision from outside before it can be applied.
    spec fn interactive(&self) -> bool;

    /// Computes the position a token is sent to from `idx`. The result is
    /// signed and wide, so that a destination off either end of the board is
    /// reported as it is, with no wrapping and no clamping.
    fn apply_rule(&self, idx: usize) -> (new_idx: i128)
        ensures
            new_idx == self.destination(idx as int),
    ;

    /// Tells whether the rule needs a decision from outside.
    fn is_interactive(&self) -> (interactive: bool)
        ensures
            interactive == self.interactive(),
    ;
}

/// Moves the token by a fixed number of cells; a negative number moves it
/// backwards.
pub struct MoveRule {
    moves: i32,
}

impl MoveRule {
    /// The number of cells the rule moves a token by.
    pub closed spec fn offset(&self) -> i32 {
        self.moves
    }

    /// Creates a rule that moves the token by `moves` cells.
    pub fn new(moves: i32) -> (rule: MoveRule)
        ensures
            rule.offset() == moves,
            !rule.interactive(),
    {
        MoveRule { moves }
    }
}

impl GameRule for MoveRule {
    open spec fn destination(&self, idx: int) -> int {
        idx + self.offset()
    }

    open spec fn interactive(&self) -> bool {
        false
    }

    fn apply_rule(&self, idx: usize) -> (new_idx: i128)
        ensures
            new_idx == idx + self.offset(),
    {
        idx as i128 + self.moves as i128
    }

    fn is_interactive(&self) -> (interactive: bool)
        ensures
            !interactive,
    {
        false
    }
}

/// Sends the token back to the first cell.
pub struct MoveToStartRule {}

impl MoveToStartRule {
    /// Creates the rule.
    pub fn new() -> (rule: MoveToStartRule)
        ensures
            !rule.interactive(),
            forall|idx: int| #[trigger] rule.destination(idx) == 0,
    {
        MoveToStartRule {  }
    }
}

impl GameRule for MoveToStartRule {
    open spec fn destination(&self, idx: int) -> int {
        0
    }

    open spec fn interactive(&self) -> bool {
        false
    }

    fn apply_rule(&self, idx: usize) -> (new_idx: i128)
        ensures
            new_idx == 0,
    {
        0
    }

    fn is_interactive(&self) -> (interactive: bool)
        ensures
            !interactive,
    {
        false
    }
}

/// Swaps the token with that of another player. Which player is a decision
/// taken outside, so the rule is interactive; applied to the other player's
/// position it hands that position back.
pub struct SwapWithOtherPlayerRule {}

impl SwapWithOtherPlayerRule {
    /// Creates the rule.
    pub fn new() -> (rule: SwapWithOtherPlayerRule)
        ensures
            rule.interactive(),
            forall|idx: int| #[trigger] rule.destination(idx) == idx,
    {
        SwapWithOtherPlayerRule {  }
    }
}

impl GameRule for SwapWithOtherPlayerRule {
    open spec fn destination(&self, idx: int) -> int {
        idx
    }

    open spec fn interactive(&self) -> bool {
        true
    }

    fn apply_rule(&self, idx_other_player: usize) -> (new_idx: i128)
        ensures
            new_idx == idx_other_player,
    {
        idx_other_player as i128
    }

    fn is_interactive(&self) -> (interactive: bool)
        ensures
            interactive,
    {
        true
    }
}

/// The rules there are, as one type a cell can hold.
pub enum Rule {
    Move(MoveRule),
    MoveToStart(MoveToStartRule),
    SwapWithOtherPlayer(SwapWithOtherPlayerRule),
}

impl GameRule for Rule {
    open spec fn destination(&self, idx: int) -> int {
        match self {
            Rule::Move(rule) => rule.destination(idx),
            Rule::MoveToStart(rule) => rule.destination(idx),
            Rule::SwapWithOtherPlayer(rule) => rule.destination(idx),
        }
    }

    open spec fn interactive(&self) -> bool {
        match self {
            Rule::Move(rule) => rule.interactive(),
            Rule::MoveToStart(rule) => rule.interactive(),
            Rule::SwapWithOtherPlayer(rule) => rule.interactive(),
        }
    }

    fn apply_rule(&self, idx: usize) -> (new_idx: i128) {
        match self {
            Rule::Move(rule) => rule.apply_rule(idx),
            Rule::MoveToStart(rule) => rule.apply_rule(idx),
            Rule::SwapWithOtherPlayer(rule) => rule.apply_rule(idx),
        }
    }

    fn is_interactive(&self) -> (interactive: bool) {
        match self {
            Rule::Move(rule) => rule.is_interactive(),
            Rule::MoveToStart(rule) => rule.is_interactive(),
            Rule::SwapWithOtherPlayer(rule) => rule.is_interactive(),
        }
    }
}

} // verus!

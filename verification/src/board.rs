//! The track: a fixed number of cells, each with at most one rule.

use vstd::prelude::*;
use crate::rules::Rule;

verus! {

/// One cell of the track. It carries one rule or none.
pub struct GameCell {
    game_rule: Option<Rule>,
}

impl View for GameCell {
    type V = Option<Rule>;

    closed spec fn view(&self) -> Option<Rule> {
        self.game_rule
    }
}

impl GameCell {
    /// Creates a cell that carries `rule`.
    pub fn new(rule: Rule) -> (cell: GameCell)
        ensures
            cell@ == Some(rule),
    {
        GameCell { game_rule: Some(rule) }
    }
}

/// The track. Cell 0 is the start and the last cell is the goal. The number
/// of cells is fixed when the board is made; what a cell carries can be
/// replaced.
pub struct GameBoard {
    length: usize,
    cells: Vec<GameCell>,
}

impl View for GameBoard {
    type V = Seq<Option<Rule>>;

    closed spec fn view(&self) -> Seq<Option<Rule>> {
        Seq::new(self.cells.len() as nat, |i: int| self.cells[i]@)
    }
}

impl GameBoard {
    /// The recorded length is the number of cells, there is at least one
    /// cell, and there are no more cells than memory can hold.
    #[verifier::type_invariant]
    spec fn inv(&self) -> bool {
        &&& self.length == self.cells.len()
        &&& 1 <= self.length <= isize::MAX
    }

    /// Creates a board of `length` cells, none of which carries a rule. A
    /// board has at least one cell, which is start and goal at once, and no
    /// more than `isize::MAX`, which is as many as a vector can hold.
    pub fn new(length: usize) -> (board: GameBoard)
        requires
            1 <= length <= isize::MAX,
        ensures
            board@.len() == length,
            forall|i: int| 0 <= i < length ==> board@[i] is None,
    {
        let mut cells: Vec<GameCell> = Vec::new();
        let mut i: usize = 0;
        while i < length
            invariant
                i <= length,
                cells.len() == i,
                forall|j: int| 0 <= j < i ==> cells[j]@ is None,
            decreases length - i,
        {
            cells.push(GameCell { game_rule: None });
            i = i + 1;
        }
        GameBoard { length, cells }
    }

    /// The cell at `idx`, or nothing where the board has no such cell.
    pub fn get_cell_at(&self, idx: usize) -> (cell: Option<&GameCell>)
        ensures
            idx < self@.len() ==> cell is Some && cell->0@ == self@[idx as int],
            idx >= self@.len() ==> cell is None,
    {
        if idx < self.cells.len() {
            Some(&self.cells[idx])
        } else {
            None
        }
    }

    /// The rule of the cell at `idx`, or nothing where the board has no such
    /// cell or the cell carries no rule.
    pub fn get_cell_rule_at(&self, idx: usize) -> (rule: Option<&Rule>)
        ensures
            match rule {
                Some(rule) => idx < self@.len() && self@[idx as int] == Some(*rule),
                None => idx >= self@.len() || self@[idx as int] is None,
            },
    {
        match self.get_cell_at(idx) {
            Some(cell) => cell.game_rule.as_ref(),
            None => None,
        }
    }

    /// The number of cells.
    pub fn get_length(&self) -> (length: usize)
        ensures
            length == self@.len(),
            1 <= length <= isize::MAX,
    {
        proof {
            use_type_invariant(self);
        }
        self.length
    }

    /// Replaces the cell at `idx`, which must be a cell of the board. The
    /// other cells and the length of the board stay as they are.
    pub fn set_cell_at(&mut self, idx: usize, cell: GameCell)
        requires
            idx < old(self)@.len(),
        ensures
            final(self)@ == old(self)@.update(idx as int, cell@),
            final(self)@.len() == old(self)@.len(),
    {
        proof {
            use_type_invariant(&*self);
        }
        self.cells[idx] = cell;
    }
}

} // verus!

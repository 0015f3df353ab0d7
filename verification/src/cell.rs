//! The two players, the content of a board cell and the palette that
//! drawing commands choose their colours from.

use vstd::prelude::*;

verus! {

/// One of the two players. The turn passes from each to the other.
#[derive(Clone, Copy, Debug, PartialEq, Eq, Structural)]
pub enum Player {
    A,
    B,
}

/// What a slot of the board holds.
#[derive(Clone, Copy, Debug, PartialEq, Eq, Structural)]
pub enum Cell {
    Empty,
    PlayerA,
    PlayerB,
}

/// A colour of the fixed palette. The renderer decides what each looks like.
#[derive(Clone, Copy, Debug, PartialEq, Eq, Structural)]
pub enum ColorToken {
    PlayerA,
    PlayerB,
    Accent,
    Background,
}

impl Player {
    /// The opponent.
    pub open spec fn spec_other(self) -> Player {
        match self {
            Player::A => Player::B,
            Player::B => Player::A,
        }
    }

    /// The cell content that a piece of this player leaves.
    pub open spec fn spec_cell(self) -> Cell {
        match self {
            Player::A => Cell::PlayerA,
            Player::B => Cell::PlayerB,
        }
    }

    /// The palette colour of this player's pieces.
    pub open spec fn spec_token(self) -> ColorToken {
        match self {
            Player::A => ColorToken::PlayerA,
            Player::B => ColorToken::PlayerB,
        }
    }

    /// The opponent.
    #[verifier::when_used_as_spec(spec_other)]
    pub fn other(self) -> (opponent: Player)
        ensures
            opponent == self.spec_other(),
            opponent != self,
    {
        match self {
            Player::A => Player::B,
            Player::B => Player::A,
        }
    }

    /// The cell content that a piece of this player leaves.
    #[verifier::when_used_as_spec(spec_cell)]
    pub fn cell(self) -> (cell: Cell)
        ensures
            cell == self.spec_cell(),
    {
        match self {
            Player::A => Cell::PlayerA,
            Player::B => Cell::PlayerB,
        }
    }

    /// The palette colour of this player's pieces.
    #[verifier::when_used_as_spec(spec_token)]
    pub fn token(self) -> (token: ColorToken)
        ensures
            token == self.spec_token(),
    {
        match self {
            Player::A => ColorToken::PlayerA,
            Player::B => ColorToken::PlayerB,
        }
    }
}

impl Cell {
    /// The player whose piece lies here, if any.
    pub open spec fn spec_owner(self) -> Option<Player> {
        match self {
            Cell::Empty => None,
            Cell::PlayerA => Some(Player::A),
            Cell::PlayerB => Some(Player::B),
        }
    }

    /// The player whose piece lies here, if any.
    #[verifier::when_used_as_spec(spec_owner)]
    pub fn owner(self) -> (owner: Option<Player>)
        ensures
            owner == self.spec_owner(),
    {
        match self {
            Cell::Empty => None,
            Cell::PlayerA => Some(Player::A),
            Cell::PlayerB => Some(Player::B),
        }
    }

    /// Whether no piece lies here.
    pub fn is_empty(self) -> (empty: bool)
        ensures
            empty == (self is Empty),
    {
        match self {
            Cell::Empty => true,
            _ => false,
        }
    }
}

/// Passing the turn twice gives it back, and the two players' pieces differ.
pub proof fn lemma_two_players(p: Player)
    ensures
        p.other() != p,
        p.other().other() == p,
        p.cell() != Cell::Empty,
        p.cell() != p.other().cell(),
        p.cell().owner() == Some(p),
{
}

} // verus!

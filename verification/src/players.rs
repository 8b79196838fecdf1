//! The seats of a game and what each holds.

use vstd::prelude::*;

verus! {

/// The last thing a player did in a betting round.
#[derive(Debug, PartialEq, Eq)]
pub enum GameOperation {
    Check,
    Call,
    Raise(u64),
    Fold,
}

impl Default for GameOperation {
    fn default() -> (op: Self)
        ensures
            op == GameOperation::Check,
    {
        GameOperation::Check
    }
}

impl Clone for GameOperation {
    fn clone(&self) -> (copy: Self)
        ensures
            copy == *self,
    {
        match self {
            GameOperation::Check => GameOperation::Check,
            GameOperation::Call => GameOperation::Call,
            GameOperation::Raise(amount) => GameOperation::Raise(*amount),
            GameOperation::Fold => GameOperation::Fold,
        }
    }
}

/// One seat.
#[derive(Debug, PartialEq, Eq)]
pub struct Player {
    pub money: u64,
    /// Seat in the betting order, counted from the first to act.
    pub pos: u64,
    pub op: GameOperation,
    pub pay_money: u64,
}

impl Player {
    /// A seat with no money that has not acted yet.
    pub open spec fn fresh() -> Player {
        Player { money: 0, pos: 0, op: GameOperation::Check, pay_money: 0 }
    }
}

impl Default for Player {
    fn default() -> (player: Self)
        ensures
            player == Player::fresh(),
    {
        Player { money: 0, pos: 0, op: GameOperation::Check, pay_money: 0 }
    }
}

impl Clone for Player {
    fn clone(&self) -> (copy: Self)
        ensures
            copy == *self,
    {
        Player { money: self.money, pos: self.pos, op: self.op.clone(), pay_money: self.pay_money }
    }
}

/// All seats of a game, with the pot.
#[derive(Debug, PartialEq, Eq)]
pub struct PlayerInfos {
    pub players: Vec<Player>,
    pub game_pos: u64,
    pub money: u64,
}

impl PlayerInfos {
    /// `size` fresh seats and an empty pot.
    pub fn init(size: usize) -> (table: Self)
        ensures
            table.players@.len() == size,
            forall|i: int| 0 <= i < size ==> #[trigger] table.players@[i] == Player::fresh(),
            table.game_pos == 0,
            table.money == 0,
    {
        let mut player: Vec<Player> = Vec::with_capacity(size);
        player.resize(size, Player::default());
        PlayerInfos { players: player, game_pos: 0, money: 0 }
    }
}

} // verus!

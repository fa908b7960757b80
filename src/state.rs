use vstd::prelude::*;

use crate::msg::{GameMove, GameResult};

verus! {

/// Why an operation was refused. A refused operation writes nothing.
#[derive(Clone, Copy, Debug, PartialEq, Eq, Structural)]
pub enum ContractError {
    /// The opponent identity did not pass address validation.
    InvalidAddress,
    /// The caller does not hold the role the operation asks for.
    Unauthorized,
    /// No record under the key, or the field asked for is not yet set.
    NotFound,
    /// The match already has a result.
    GameAlreadyResolved,
    /// The underlying store failed.
    StorageFailure,
}

/// Where a match stands, read off which of its fields are set.
#[derive(Clone, Copy, Debug, PartialEq, Eq, Structural)]
pub enum Phase {
    NotStarted,
    AwaitingOpponentMove,
    Resolved,
}

/// The record of one host's match.
#[derive(Clone, Debug, PartialEq, Eq)]
pub struct GameState {
    pub host: String,
    pub opponent: Option<String>,
    pub host_move: Option<GameMove>,
    pub opponent_move: Option<GameMove>,
    pub game_result: Option<GameResult>,
}

/// The identity that may start games on this instance.
#[derive(Clone, Debug, PartialEq, Eq)]
pub struct Ownership {
    pub owner: String,
}

/// A match record with identities as character sequences.
pub struct GameView {
    pub host: Seq<char>,
    pub opponent: Option<Seq<char>>,
    pub host_move: Option<GameMove>,
    pub opponent_move: Option<GameMove>,
    pub game_result: Option<GameResult>,
}

pub open spec fn opt_view(o: Option<String>) -> Option<Seq<char>> {
    match o {
        Some(s) => Some(s@),
        None => None,
    }
}

impl View for GameState {
    type V = GameView;

    open spec fn view(&self) -> GameView {
        GameView {
            host: self.host@,
            opponent: opt_view(self.opponent),
            host_move: self.host_move,
            opponent_move: self.opponent_move,
            game_result: self.game_result,
        }
    }
}

impl View for Ownership {
    type V = Seq<char>;

    open spec fn view(&self) -> Seq<char> {
        self.owner@
    }
}

impl GameView {
    /// The fields are set in the order a match goes: opponent and host move
    /// together, then the opponent's move, then the result, which is the
    /// outcome of the two moves.
    pub open spec fn wf(self) -> bool {
        &&& self.opponent.is_some() <==> self.host_move.is_some()
        &&& self.opponent_move.is_some() ==> self.opponent.is_some()
        &&& self.game_result.is_some() <==> self.opponent_move.is_some()
        &&& self.game_result.is_some() ==> self.game_result == Some(
            crate::game::outcome(self.host_move.unwrap(), self.opponent_move.unwrap()),
        )
    }

    pub open spec fn phase(self) -> Phase {
        if self.game_result.is_some() {
            Phase::Resolved
        } else if self.host_move.is_some() {
            Phase::AwaitingOpponentMove
        } else {
            Phase::NotStarted
        }
    }

    /// The record a host has before any game is started.
    pub open spec fn fresh(host: Seq<char>) -> GameView {
        GameView {
            host,
            opponent: None,
            host_move: None,
            opponent_move: None,
            game_result: None,
        }
    }
}

impl GameState {
    /// A record for `host` with no game started.
    pub fn new(host: String) -> (r: GameState)
        ensures
            r@ == GameView::fresh(host@),
    {
        GameState {
            host,
            opponent: None,
            host_move: None,
            opponent_move: None,
            game_result: None,
        }
    }

    /// Whether the fields are set in an order a match can reach.
    pub fn is_well_formed(&self) -> (r: bool)
        ensures
            r == self@.wf(),
    {
        let moves_agree = match (self.host_move, self.opponent_move, self.game_result) {
            (Some(h), Some(o), Some(g)) => crate::game::resolve(h, o) == g,
            _ => true,
        };
        (self.opponent.is_some() == self.host_move.is_some())
            && (self.opponent_move.is_none() || self.opponent.is_some())
            && (self.game_result.is_some() == self.opponent_move.is_some())
            && moves_agree
    }

    /// Where the match stands.
    pub fn phase(&self) -> (r: Phase)
        ensures
            r == self@.phase(),
    {
        if self.game_result.is_some() {
            Phase::Resolved
        } else if self.host_move.is_some() {
            Phase::AwaitingOpponentMove
        } else {
            Phase::NotStarted
        }
    }

    /// A copy of the record.
    pub fn duplicate(&self) -> (r: GameState)
        ensures
            r@ == self@,
    {
        let opponent = match &self.opponent {
            Some(o) => Some(o.clone()),
            None => None,
        };
        GameState {
            host: self.host.clone(),
            opponent,
            host_move: self.host_move,
            opponent_move: self.opponent_move,
            game_result: self.game_result,
        }
    }
}

} // verus!

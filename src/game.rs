use vstd::prelude::*;

use crate::msg::{GameMove, GameResult};
use crate::state::{ContractError, GameState, GameView, Ownership};

verus! {

/// `a` beats `b`: rock blunts scissors, scissors cut paper, paper wraps rock.
pub open spec fn beats(a: GameMove, b: GameMove) -> bool {
    match (a, b) {
        (GameMove::Rock {}, GameMove::Scissors {}) => true,
        (GameMove::Scissors {}, GameMove::Paper {}) => true,
        (GameMove::Paper {}, GameMove::Rock {}) => true,
        _ => false,
    }
}

/// The outcome of a match in which the host played `h` and the opponent `o`.
pub open spec fn outcome(h: GameMove, o: GameMove) -> GameResult {
    if h == o {
        GameResult::Tie {}
    } else if beats(h, o) {
        GameResult::HostWins {}
    } else {
        GameResult::OpponentWins {}
    }
}

/// Decides a match: a tie on equal moves, else the side whose move beats the other's.
pub fn resolve(host_move: GameMove, opponent_move: GameMove) -> (r: GameResult)
    ensures
        r == outcome(host_move, opponent_move),
        host_move == opponent_move <==> r == (GameResult::Tie {}),
        beats(host_move, opponent_move) <==> r == (GameResult::HostWins {}),
        beats(opponent_move, host_move) <==> r == (GameResult::OpponentWins {}),
{
    match (host_move, opponent_move) {
        (GameMove::Rock {}, GameMove::Scissors {}) => GameResult::HostWins {},
        (GameMove::Scissors {}, GameMove::Paper {}) => GameResult::HostWins {},
        (GameMove::Paper {}, GameMove::Rock {}) => GameResult::HostWins {},
        (GameMove::Scissors {}, GameMove::Rock {}) => GameResult::OpponentWins {},
        (GameMove::Paper {}, GameMove::Scissors {}) => GameResult::OpponentWins {},
        (GameMove::Rock {}, GameMove::Paper {}) => GameResult::OpponentWins {},
        _ => GameResult::Tie {},
    }
}

/// The record that starting a game leaves under the caller's key, or why
/// the start is refused: an opponent that failed validation first, then a
/// caller that is not the owner. The host of an existing record is kept.
pub open spec fn start_game_spec(
    owner: Seq<char>,
    existing: Option<GameView>,
    sender: Seq<char>,
    opponent: Seq<char>,
    opponent_valid: bool,
    host_move: GameMove,
) -> Result<GameView, ContractError> {
    if !opponent_valid {
        Err(ContractError::InvalidAddress)
    } else if sender != owner {
        Err(ContractError::Unauthorized)
    } else {
        Ok(
            GameView {
                host: match existing {
                    Some(g) => g.host,
                    None => sender,
                },
                opponent: Some(opponent),
                host_move: Some(host_move),
                opponent_move: None,
                game_result: None,
            },
        )
    }
}

/// The record after the caller submits `player_move`, or why that is
/// refused: no record, a caller that is not the opponent, a match that is
/// already over. A move that is taken decides the match at once.
pub open spec fn submit_move_spec(existing: Option<GameView>, sender: Seq<char>, player_move: GameMove)
    -> Result<GameView, ContractError> {
    match existing {
        None => Err(ContractError::NotFound),
        Some(g) => if g.opponent != Some(sender) {
            Err(ContractError::Unauthorized)
        } else if g.game_result.is_some() {
            Err(ContractError::GameAlreadyResolved)
        } else {
            Ok(
                GameView {
                    opponent_move: Some(player_move),
                    game_result: Some(outcome(g.host_move.unwrap(), player_move)),
                    ..g
                },
            )
        },
    }
}

/// What a move query on a record answers.
pub open spec fn move_spec(existing: Option<GameView>) -> Result<GameMove, ContractError> {
    match existing {
        Some(g) => match g.host_move {
            Some(m) => Ok(m),
            None => Err(ContractError::NotFound),
        },
        None => Err(ContractError::NotFound),
    }
}

/// What an opponent query on a record answers.
pub open spec fn opponent_spec(existing: Option<GameView>) -> Result<Seq<char>, ContractError> {
    match existing {
        Some(g) => match g.opponent {
            Some(o) => Ok(o),
            None => Err(ContractError::NotFound),
        },
        None => Err(ContractError::NotFound),
    }
}

pub open spec fn ref_view(r: Option<&GameState>) -> Option<GameView> {
    match r {
        Some(g) => Some(g@),
        None => None,
    }
}

/// A copy of `s` as an owned string.
pub(crate) fn owned(s: &str) -> (r: String)
    ensures
        r@ == s@,
{
    s.to_string()
}

/// Starts a game for `sender` against `opponent`, given the record stored
/// under `sender` (if any) and whether `opponent` passed address validation.
pub fn apply_start_game(
    ownership: &Ownership,
    existing: Option<&GameState>,
    sender: &str,
    opponent: &str,
    opponent_valid: bool,
    host_move: GameMove,
) -> (r: Result<GameState, ContractError>)
    ensures
        match r {
            Ok(g) => start_game_spec(
                ownership@,
                ref_view(existing),
                sender@,
                opponent@,
                opponent_valid,
                host_move,
            ) == Ok::<GameView, ContractError>(g@),
            Err(e) => start_game_spec(
                ownership@,
                ref_view(existing),
                sender@,
                opponent@,
                opponent_valid,
                host_move,
            ) == Err::<GameView, ContractError>(e),
        },
{
    if !opponent_valid {
        return Err(ContractError::InvalidAddress);
    }
    let caller = owned(sender);
    if caller != ownership.owner {
        return Err(ContractError::Unauthorized);
    }
    let host = match existing {
        Some(g) => g.host.clone(),
        None => caller,
    };
    Ok(
        GameState {
            host,
            opponent: Some(owned(opponent)),
            host_move: Some(host_move),
            opponent_move: None,
            game_result: None,
        },
    )
}

/// Takes the opponent's move on the record under the host's key, and
/// decides the match.
pub fn apply_submit_move(existing: Option<&GameState>, sender: &str, player_move: GameMove) -> (r:
    Result<GameState, ContractError>)
    requires
        existing.is_some() ==> existing.unwrap()@.wf(),
    ensures
        match r {
            Ok(g) => submit_move_spec(ref_view(existing), sender@, player_move) == Ok::<
                GameView,
                ContractError,
            >(g@),
            Err(e) => submit_move_spec(ref_view(existing), sender@, player_move) == Err::<
                GameView,
                ContractError,
            >(e),
        },
{
    let g = match existing {
        Some(g) => g,
        None => {
            return Err(ContractError::NotFound);
        },
    };
    let caller = owned(sender);
    let is_opponent = match &g.opponent {
        Some(o) => *o == caller,
        None => false,
    };
    if !is_opponent {
        return Err(ContractError::Unauthorized);
    }
    if g.game_result.is_some() {
        return Err(ContractError::GameAlreadyResolved);
    }
    let host_move = match g.host_move {
        Some(h) => h,
        None => {
            return Err(ContractError::NotFound);
        },
    };
    let mut next = g.duplicate();
    next.opponent_move = Some(player_move);
    next.game_result = Some(resolve(host_move, player_move));
    Ok(next)
}

/// The host's move in a record.
pub fn move_of(existing: Option<&GameState>) -> (r: Result<GameMove, ContractError>)
    ensures
        r == move_spec(ref_view(existing)),
{
    match existing {
        Some(g) => match g.host_move {
            Some(m) => Ok(m),
            None => Err(ContractError::NotFound),
        },
        None => Err(ContractError::NotFound),
    }
}

/// The opponent in a record.
pub fn opponent_of(existing: Option<&GameState>) -> (r: Result<String, ContractError>)
    ensures
        match r {
            Ok(o) => opponent_spec(ref_view(existing)) == Ok::<Seq<char>, ContractError>(o@),
            Err(e) => opponent_spec(ref_view(existing)) == Err::<Seq<char>, ContractError>(e),
        },
{
    match existing {
        Some(g) => match &g.opponent {
            Some(o) => Ok(o.clone()),
            None => Err(ContractError::NotFound),
        },
        None => Err(ContractError::NotFound),
    }
}

} // verus!

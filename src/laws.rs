use vstd::prelude::*;

use crate::contract::{
    after_start_game, after_submit_move, answer_view, query_spec, run, start_game_outcome,
    submit_move_outcome, Action, Answer, ContractView,
};
use crate::game::outcome;
use crate::msg::{GameMove, GameResult, QueryMsg, QueryResponse};
use crate::state::{ContractError, GameView};

verus! {

/// No request changes who the owner is.
pub proof fn lemma_owner_never_changes(c: ContractView, actions: Seq<Action>)
    ensures
        run(c, actions).owner == c.owner,
    decreases actions.len(),
{
    if actions.len() > 0 {
        lemma_owner_never_changes(c, actions.drop_last());
    }
}

/// Once `owner` has instantiated the contract, the owner query answers
/// `owner` to anyone, whatever requests came after.
pub proof fn lemma_owner_answer_forever(owner: Seq<char>, actions: Seq<Action>, querier: Seq<char>)
    ensures
        query_spec(run(ContractView::initial(owner), actions), querier, QueryMsg::GetOwner {})
            == Ok::<Answer, ContractError>(Answer::Owner(owner)),
{
    lemma_owner_never_changes(ContractView::initial(owner), actions);
}

/// A start-game request from anyone but the owner is refused and changes
/// nothing; with an opponent that passed validation it is refused as
/// unauthorized.
pub proof fn lemma_only_owner_starts(
    c: ContractView,
    sender: Seq<char>,
    opponent: Seq<char>,
    opponent_valid: bool,
    host_move: GameMove,
)
    requires
        sender != c.owner,
    ensures
        after_start_game(c, sender, opponent, opponent_valid, host_move) == c,
        start_game_outcome(c, sender, opponent, opponent_valid, host_move) is Err,
        opponent_valid ==> start_game_outcome(c, sender, opponent, opponent_valid, host_move)
            == Err::<Seq<(Seq<char>, Seq<char>)>, ContractError>(ContractError::Unauthorized),
{
}

/// A start-game request naming an opponent that failed address validation
/// is refused as an invalid address and changes nothing.
pub proof fn lemma_invalid_opponent_refused(
    c: ContractView,
    sender: Seq<char>,
    opponent: Seq<char>,
    host_move: GameMove,
)
    ensures
        after_start_game(c, sender, opponent, false, host_move) == c,
        start_game_outcome(c, sender, opponent, false, host_move)
            == Err::<Seq<(Seq<char>, Seq<char>)>, ContractError>(ContractError::InvalidAddress),
{
}

/// A match runs in order: once the owner starts it against `opponent` with
/// `host_move`, the owner's queries answer that opponent and that move and
/// no result is set; once the opponent answers with `opponent_move`, the
/// result is the outcome of the two moves, and a further move from the
/// opponent is refused because the match is decided.
pub proof fn lemma_match_in_order(
    c: ContractView,
    opponent: Seq<char>,
    host_move: GameMove,
    opponent_move: GameMove,
    later_move: GameMove,
)
    requires
        c.wf(),
    ensures
        ({
            let started = after_start_game(c, c.owner, opponent, true, host_move);
            let answered = after_submit_move(started, opponent, opponent_move);
            &&& start_game_outcome(c, c.owner, opponent, true, host_move) is Ok
            &&& query_spec(started, c.owner, QueryMsg::GetOpponent {})
                == Ok::<Answer, ContractError>(Answer::Opponent(opponent))
            &&& query_spec(started, c.owner, QueryMsg::GetMove {})
                == Ok::<Answer, ContractError>(Answer::Move(host_move))
            &&& started.games[c.owner].game_result is None
            &&& submit_move_outcome(started, opponent, opponent_move) is Ok
            &&& answered.games[c.owner].game_result == Some(outcome(host_move, opponent_move))
            &&& (host_move == GameMove::Rock {} && opponent_move == GameMove::Scissors {})
                ==> answered.games[c.owner].game_result == Some(GameResult::HostWins {})
            &&& submit_move_outcome(answered, opponent, later_move)
                == Err::<Seq<(Seq<char>, Seq<char>)>, ContractError>(
                ContractError::GameAlreadyResolved,
            )
            &&& after_submit_move(answered, opponent, later_move) == answered
        }),
{
}

/// Two answers to the same query on the same state are the same answer.
pub proof fn lemma_queries_repeatable(
    c: ContractView,
    sender: Seq<char>,
    msg: QueryMsg,
    first: Result<QueryResponse, ContractError>,
    second: Result<QueryResponse, ContractError>,
)
    requires
        answer_view(first) == query_spec(c, sender, msg),
        answer_view(second) == query_spec(c, sender, msg),
    ensures
        answer_view(first) == answer_view(second),
{
}

/// The owner may start a new match over a decided one: the opponent and
/// the host's move take the new values, and the opponent's move and the
/// result are cleared.
pub proof fn lemma_restart_after_result(
    c: ContractView,
    opponent: Seq<char>,
    host_move: GameMove,
)
    requires
        c.wf(),
        c.games.contains_key(c.owner),
        c.games[c.owner].game_result is Some,
    ensures
        start_game_outcome(c, c.owner, opponent, true, host_move) is Ok,
        after_start_game(c, c.owner, opponent, true, host_move).games[c.owner] == (GameView {
            host: c.owner,
            opponent: Some(opponent),
            host_move: Some(host_move),
            opponent_move: None,
            game_result: None,
        }),
{
}

} // verus!

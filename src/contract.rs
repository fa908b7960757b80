use vstd::prelude::*;

use crate::game::{
    apply_start_game, apply_submit_move, move_of, move_spec, opponent_of, opponent_spec, owned,
    start_game_spec, submit_move_spec,
};
use crate::msg::{
    instantiate_reply, result_label, start_game_reply, submit_move_reply, ExecuteMsg, GameMove,
    GameResult, MoveResponse, OpponentResponse, OwnerResponse, QueryMsg, QueryResponse, Response,
};
use crate::registry::{lookup, Registry};
use crate::state::{ContractError, GameView, Ownership};

verus! {

/// The whole state of one instance: its owner and the match records.
pub struct Contract {
    ownership: Ownership,
    games: Registry,
}

/// A contract's state with identities as character sequences.
pub struct ContractView {
    pub owner: Seq<char>,
    pub games: Map<Seq<char>, GameView>,
}

impl ContractView {
    /// Each record sits under its host's key and is well formed.
    pub open spec fn wf(self) -> bool {
        forall|k: Seq<char>| #[trigger]
            self.games.contains_key(k) ==> self.games[k].host == k && self.games[k].wf()
    }

    /// The state just after `owner` instantiated the contract.
    pub open spec fn initial(owner: Seq<char>) -> ContractView {
        ContractView {
            owner,
            games: Map::<Seq<char>, GameView>::empty().insert(owner, GameView::fresh(owner)),
        }
    }
}

impl View for Contract {
    type V = ContractView;

    closed spec fn view(&self) -> ContractView {
        ContractView { owner: self.ownership@, games: self.games@ }
    }
}

impl Contract {
    pub closed spec fn inv(&self) -> bool {
        self.games.wf() && self@.wf()
    }
}

/// The state after a start-game request; a refused one changes nothing.
pub open spec fn after_start_game(
    c: ContractView,
    sender: Seq<char>,
    opponent: Seq<char>,
    opponent_valid: bool,
    host_move: GameMove,
) -> ContractView {
    match start_game_spec(c.owner, lookup(c.games, sender), sender, opponent, opponent_valid, host_move) {
        Ok(g) => ContractView { games: c.games.insert(sender, g), ..c },
        Err(_) => c,
    }
}

/// The state after a submit-move request on the owner's match; a refused
/// one changes nothing.
pub open spec fn after_submit_move(c: ContractView, sender: Seq<char>, player_move: GameMove)
    -> ContractView {
    match submit_move_spec(lookup(c.games, c.owner), sender, player_move) {
        Ok(g) => ContractView { games: c.games.insert(c.owner, g), ..c },
        Err(_) => c,
    }
}

/// Creates the contract's state for the instantiating `sender`: it becomes
/// the owner and gets a record with no game started.
pub fn instantiate(sender: &str) -> (r: (Contract, Response))
    ensures
        r.0.inv(),
        r.0@ == ContractView::initial(sender@),
        r.1@ == seq![("method"@, "instantiate"@), ("host"@, sender@), ("owner"@, sender@)],
{
    let mut games = Registry::new();
    games.save(crate::state::GameState::new(owned(sender)));
    let contract = Contract { ownership: Ownership { owner: owned(sender) }, games };
    assert(contract@.games =~= ContractView::initial(sender@).games);
    (contract, instantiate_reply(sender))
}

pub open spec fn response_view(r: Result<Response, ContractError>) -> Result<
    Seq<(Seq<char>, Seq<char>)>,
    ContractError,
> {
    match r {
        Ok(resp) => Ok(resp@),
        Err(e) => Err(e),
    }
}

/// What a start-game request reports: the method on success, else the error.
pub open spec fn start_game_outcome(
    c: ContractView,
    sender: Seq<char>,
    opponent: Seq<char>,
    opponent_valid: bool,
    host_move: GameMove,
) -> Result<Seq<(Seq<char>, Seq<char>)>, ContractError> {
    match start_game_spec(c.owner, lookup(c.games, sender), sender, opponent, opponent_valid, host_move) {
        Ok(_) => Ok(seq![("method"@, "start_game"@)]),
        Err(e) => Err(e),
    }
}

/// What a submit-move request reports: the method and the match's result on
/// success, else the error.
pub open spec fn submit_move_outcome(c: ContractView, sender: Seq<char>, player_move: GameMove)
    -> Result<Seq<(Seq<char>, Seq<char>)>, ContractError> {
    match submit_move_spec(lookup(c.games, c.owner), sender, player_move) {
        Ok(g) => Ok(
            seq![("method"@, "submit_move"@), ("result"@, result_label(g.game_result.unwrap()))],
        ),
        Err(e) => Err(e),
    }
}

/// Starts a game on the caller's record: only the owner may, and only
/// against an opponent that passed address validation (`opponent_valid`).
/// A new game may replace a finished one.
pub fn try_start_game(
    contract: &mut Contract,
    sender: &str,
    opponent: &str,
    opponent_valid: bool,
    host_move: GameMove,
) -> (r: Result<Response, ContractError>)
    requires
        old(contract).inv(),
    ensures
        final(contract).inv(),
        final(contract)@ == after_start_game(
            old(contract)@,
            sender@,
            opponent@,
            opponent_valid,
            host_move,
        ),
        response_view(r) == start_game_outcome(
            old(contract)@,
            sender@,
            opponent@,
            opponent_valid,
            host_move,
        ),
{
    let key = owned(sender);
    let next = apply_start_game(
        &contract.ownership,
        contract.games.load(&key),
        sender,
        opponent,
        opponent_valid,
        host_move,
    );
    match next {
        Ok(g) => {
            contract.games.save(g);
            let response = start_game_reply();
            assert(final(contract)@.games =~= after_start_game(
                old(contract)@,
                sender@,
                opponent@,
                opponent_valid,
                host_move,
            ).games);
            Ok(response)
        },
        Err(e) => Err(e),
    }
}

/// The opponent of the owner's match submits a move, which decides it.
pub fn submit_move(contract: &mut Contract, sender: &str, player_move: GameMove) -> (r: Result<
    Response,
    ContractError,
>)
    requires
        old(contract).inv(),
    ensures
        final(contract).inv(),
        final(contract)@ == after_submit_move(old(contract)@, sender@, player_move),
        response_view(r) == submit_move_outcome(old(contract)@, sender@, player_move),
{
    let key = contract.ownership.owner.clone();
    let next = apply_submit_move(contract.games.load(&key), sender, player_move);
    match next {
        Ok(g) => {
            let result = match g.game_result {
                Some(res) => res,
                None => GameResult::Tie {},
            };
            contract.games.save(g);
            let response = submit_move_reply(result);
            assert(final(contract)@.games =~= after_submit_move(old(contract)@, sender@, player_move).games);
            Ok(response)
        },
        Err(e) => Err(e),
    }
}

/// One state-changing request, as a caller makes it.
pub enum Action {
    StartGame {
        sender: Seq<char>,
        opponent: Seq<char>,
        opponent_valid: bool,
        host_move: GameMove,
    },
    SubmitMove { sender: Seq<char>, player_move: GameMove },
}

/// The request that `sender` makes with `msg`.
pub open spec fn action_of(sender: Seq<char>, msg: ExecuteMsg, opponent_valid: bool) -> Action {
    match msg {
        ExecuteMsg::StartGame { opponent, host_move } => Action::StartGame {
            sender,
            opponent: opponent@,
            opponent_valid,
            host_move,
        },
        ExecuteMsg::SubmitMove { player_move } => Action::SubmitMove { sender, player_move },
    }
}

/// The state after one request.
pub open spec fn step(c: ContractView, a: Action) -> ContractView {
    match a {
        Action::StartGame { sender, opponent, opponent_valid, host_move } => after_start_game(
            c,
            sender,
            opponent,
            opponent_valid,
            host_move,
        ),
        Action::SubmitMove { sender, player_move } => after_submit_move(c, sender, player_move),
    }
}

/// The state after a run of requests, taken in order.
pub open spec fn run(c: ContractView, actions: Seq<Action>) -> ContractView
    decreases actions.len(),
{
    if actions.len() == 0 {
        c
    } else {
        step(run(c, actions.drop_last()), actions.last())
    }
}

/// What a request reports.
pub open spec fn execute_outcome(c: ContractView, a: Action) -> Result<
    Seq<(Seq<char>, Seq<char>)>,
    ContractError,
> {
    match a {
        Action::StartGame { sender, opponent, opponent_valid, host_move } => start_game_outcome(
            c,
            sender,
            opponent,
            opponent_valid,
            host_move,
        ),
        Action::SubmitMove { sender, player_move } => submit_move_outcome(c, sender, player_move),
    }
}

/// Carries out a state-changing request from `sender`. `opponent_valid`
/// says whether the opponent named by a start-game request passed address
/// validation; other requests ignore it.
pub fn execute(contract: &mut Contract, sender: &str, msg: ExecuteMsg, opponent_valid: bool) -> (r:
    Result<Response, ContractError>)
    requires
        old(contract).inv(),
    ensures
        final(contract).inv(),
        final(contract)@ == step(old(contract)@, action_of(sender@, msg, opponent_valid)),
        response_view(r) == execute_outcome(old(contract)@, action_of(sender@, msg, opponent_valid)),
{
    match msg {
        ExecuteMsg::StartGame { opponent, host_move } => try_start_game(
            contract,
            sender,
            opponent.as_str(),
            opponent_valid,
            host_move,
        ),
        ExecuteMsg::SubmitMove { player_move } => submit_move(contract, sender, player_move),
    }
}

/// The host's move in the match under `key`.
pub fn query_move(contract: &Contract, key: &str) -> (r: Result<MoveResponse, ContractError>)
    requires
        contract.inv(),
    ensures
        match r {
            Ok(m) => move_spec(lookup(contract@.games, key@)) == Ok::<GameMove, ContractError>(
                m.move_type,
            ),
            Err(e) => move_spec(lookup(contract@.games, key@)) == Err::<GameMove, ContractError>(e),
        },
{
    match move_of(contract.games.load(&owned(key))) {
        Ok(m) => Ok(MoveResponse { move_type: m }),
        Err(e) => Err(e),
    }
}

/// The opponent in the match under `key`.
pub fn query_opponent(contract: &Contract, key: &str) -> (r: Result<OpponentResponse, ContractError>)
    requires
        contract.inv(),
    ensures
        match r {
            Ok(o) => opponent_spec(lookup(contract@.games, key@)) == Ok::<Seq<char>, ContractError>(
                o.opponent@,
            ),
            Err(e) => opponent_spec(lookup(contract@.games, key@)) == Err::<Seq<char>, ContractError>(
                e,
            ),
        },
{
    match opponent_of(contract.games.load(&owned(key))) {
        Ok(o) => Ok(OpponentResponse { opponent: o }),
        Err(e) => Err(e),
    }
}

/// The owner of this instance.
pub fn query_owner(contract: &Contract) -> (r: OwnerResponse)
    ensures
        r.owner@ == contract@.owner,
{
    OwnerResponse { owner: contract.ownership.owner.clone() }
}

/// What a query answers, with identities as character sequences.
pub enum Answer {
    Move(GameMove),
    Opponent(Seq<char>),
    Owner(Seq<char>),
}

pub open spec fn answer_view(r: Result<QueryResponse, ContractError>) -> Result<Answer, ContractError> {
    match r {
        Ok(QueryResponse::Move(m)) => Ok(Answer::Move(m.move_type)),
        Ok(QueryResponse::Opponent(o)) => Ok(Answer::Opponent(o.opponent@)),
        Ok(QueryResponse::Owner(o)) => Ok(Answer::Owner(o.owner@)),
        Err(e) => Err(e),
    }
}

/// What `sender` is answered: the move and opponent queries read the
/// sender's own match.
pub open spec fn query_spec(c: ContractView, sender: Seq<char>, msg: QueryMsg) -> Result<
    Answer,
    ContractError,
> {
    match msg {
        QueryMsg::GetMove {} => match move_spec(lookup(c.games, sender)) {
            Ok(m) => Ok(Answer::Move(m)),
            Err(e) => Err(e),
        },
        QueryMsg::GetOpponent {} => match opponent_spec(lookup(c.games, sender)) {
            Ok(o) => Ok(Answer::Opponent(o)),
            Err(e) => Err(e),
        },
        QueryMsg::GetOwner {} => Ok(Answer::Owner(c.owner)),
    }
}

/// Answers a read-only request from `sender`.
pub fn query(contract: &Contract, sender: &str, msg: QueryMsg) -> (r: Result<QueryResponse, ContractError>)
    requires
        contract.inv(),
    ensures
        answer_view(r) == query_spec(contract@, sender@, msg),
{
    match msg {
        QueryMsg::GetMove {} => match query_move(contract, sender) {
            Ok(m) => Ok(QueryResponse::Move(m)),
            Err(e) => Err(e),
        },
        QueryMsg::GetOpponent {} => match query_opponent(contract, sender) {
            Ok(o) => Ok(QueryResponse::Opponent(o)),
            Err(e) => Err(e),
        },
        QueryMsg::GetOwner {} => Ok(QueryResponse::Owner(query_owner(contract))),
    }
}

} // verus!

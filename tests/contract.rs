use rps::contract::{execute, instantiate, query, query_move, query_opponent, query_owner, submit_move, try_start_game};
use rps::msg::{Attribute, ExecuteMsg, GameMove, GameResult, MoveResponse, OpponentResponse, OwnerResponse, QueryMsg, QueryResponse};
use rps::state::ContractError;

fn attr(key: &str, value: &str) -> Attribute {
    Attribute { key: key.to_string(), value: value.to_string() }
}

#[test]
fn proper_initialization() {
    let (contract, res) = instantiate("Creator");
    assert_eq!(
        res.attributes,
        vec![attr("method", "instantiate"), attr("host", "Creator"), attr("owner", "Creator")]
    );
    assert_eq!(query_owner(&contract).owner, "Creator");
}

#[test]
fn start_game() {
    let (mut deps, _res) = instantiate("Creator");

    // an empty opponent address does not pass validation
    let msg = ExecuteMsg::StartGame { opponent: String::from(""), host_move: GameMove::Rock {} };
    let res = execute(&mut deps, "Creator", msg, false);
    match res {
        Err(ContractError::InvalidAddress) => {}
        _ => panic!("Invalid opponent address not picked up!"),
    }

    // only the owner may start a game
    let msg = ExecuteMsg::StartGame { opponent: String::from("Opponent"), host_move: GameMove::Rock {} };
    let res = execute(&mut deps, "Observor", msg, true);
    match res {
        Err(ContractError::Unauthorized) => {}
        _ => panic!("Invalid opponent address not picked up!"),
    }

    let msg = ExecuteMsg::StartGame { opponent: String::from("Opponent"), host_move: GameMove::Rock {} };
    let _res = execute(&mut deps, "Creator", msg, true);

    let res = query(&deps, "Creator", QueryMsg::GetOpponent {}).unwrap();
    assert_eq!(res, QueryResponse::Opponent(OpponentResponse { opponent: "Opponent".to_string() }));

    let res = query(&deps, "Creator", QueryMsg::GetMove {}).unwrap();
    assert_eq!(res, QueryResponse::Move(MoveResponse { move_type: GameMove::Rock {} }));

    let res = query(&deps, "Creator", QueryMsg::GetOwner {}).unwrap();
    assert_eq!(res, QueryResponse::Owner(OwnerResponse { owner: "Creator".to_string() }));
}

#[test]
fn start_game_reports_method() {
    let (mut c, _) = instantiate("Creator");
    let res = try_start_game(&mut c, "Creator", "Opponent", true, GameMove::Paper {}).unwrap();
    assert_eq!(res.attributes, vec![attr("method", "start_game")]);
    assert_eq!(query_move(&c, "Creator").unwrap().move_type, GameMove::Paper {});
}

#[test]
fn queries_before_a_game_are_not_found() {
    let (c, _) = instantiate("Creator");
    assert_eq!(query_move(&c, "Creator"), Err(ContractError::NotFound));
    assert_eq!(query_opponent(&c, "Creator"), Err(ContractError::NotFound));
    assert_eq!(query(&c, "Stranger", QueryMsg::GetMove {}), Err(ContractError::NotFound));
    assert_eq!(query(&c, "Stranger", QueryMsg::GetOpponent {}), Err(ContractError::NotFound));
}

#[test]
fn owner_is_kept_whatever_others_do() {
    let (mut c, _) = instantiate("Alice");
    let _ = try_start_game(&mut c, "Mallory", "Bob", true, GameMove::Rock {});
    let _ = try_start_game(&mut c, "Alice", "Bob", true, GameMove::Rock {});
    let _ = submit_move(&mut c, "Mallory", GameMove::Paper {});
    let _ = submit_move(&mut c, "Bob", GameMove::Paper {});
    let _ = execute(&mut c, "Bob", ExecuteMsg::StartGame { opponent: "Eve".to_string(), host_move: GameMove::Rock {} }, true);
    assert_eq!(query_owner(&c).owner, "Alice");
    assert_eq!(query(&c, "Bob", QueryMsg::GetOwner {}).unwrap(), QueryResponse::Owner(OwnerResponse { owner: "Alice".to_string() }));
}

#[test]
fn unauthorized_start_leaves_state_unchanged() {
    let (mut c, _) = instantiate("Alice");
    try_start_game(&mut c, "Alice", "Bob", true, GameMove::Scissors {}).unwrap();
    let res = try_start_game(&mut c, "Carol", "Dave", true, GameMove::Rock {});
    assert_eq!(res, Err(ContractError::Unauthorized));
    assert_eq!(query_opponent(&c, "Alice").unwrap().opponent, "Bob");
    assert_eq!(query_move(&c, "Alice").unwrap().move_type, GameMove::Scissors {});
    assert_eq!(query_move(&c, "Carol"), Err(ContractError::NotFound));
}

#[test]
fn invalid_opponent_leaves_state_unchanged() {
    let (mut c, _) = instantiate("Alice");
    try_start_game(&mut c, "Alice", "Bob", true, GameMove::Paper {}).unwrap();
    let res = try_start_game(&mut c, "Alice", "", false, GameMove::Rock {});
    assert_eq!(res, Err(ContractError::InvalidAddress));
    // an invalid opponent is reported before the caller's role is looked at
    let res = try_start_game(&mut c, "Carol", "", false, GameMove::Rock {});
    assert_eq!(res, Err(ContractError::InvalidAddress));
    assert_eq!(query_opponent(&c, "Alice").unwrap().opponent, "Bob");
    assert_eq!(query_move(&c, "Alice").unwrap().move_type, GameMove::Paper {});
}

#[test]
fn match_runs_in_order() {
    let (mut c, _) = instantiate("Alice");
    try_start_game(&mut c, "Alice", "Bob", true, GameMove::Rock {}).unwrap();
    assert_eq!(query_opponent(&c, "Alice").unwrap().opponent, "Bob");
    assert_eq!(query_move(&c, "Alice").unwrap().move_type, GameMove::Rock {});
    let res = submit_move(&mut c, "Bob", GameMove::Scissors {}).unwrap();
    assert_eq!(res.attributes, vec![attr("method", "submit_move"), attr("result", "host_wins")]);
    assert_eq!(submit_move(&mut c, "Bob", GameMove::Paper {}), Err(ContractError::GameAlreadyResolved));
    assert_eq!(GameResult::HostWins {}.label(), "host_wins");
}

#[test]
fn submit_move_errors() {
    let (mut c, _) = instantiate("Alice");
    // no game started: nobody is the opponent yet
    assert_eq!(submit_move(&mut c, "Bob", GameMove::Rock {}), Err(ContractError::Unauthorized));
    try_start_game(&mut c, "Alice", "Bob", true, GameMove::Rock {}).unwrap();
    assert_eq!(submit_move(&mut c, "Carol", GameMove::Rock {}), Err(ContractError::Unauthorized));
    assert_eq!(submit_move(&mut c, "Alice", GameMove::Rock {}), Err(ContractError::Unauthorized));
    let res = execute(&mut c, "Bob", ExecuteMsg::SubmitMove { player_move: GameMove::Paper {} }, false).unwrap();
    assert_eq!(res.attributes, vec![attr("method", "submit_move"), attr("result", "opponent_wins")]);
}

#[test]
fn repeated_queries_agree() {
    let (mut c, _) = instantiate("Alice");
    try_start_game(&mut c, "Alice", "Bob", true, GameMove::Paper {}).unwrap();
    for msg in [QueryMsg::GetOwner {}, QueryMsg::GetOpponent {}, QueryMsg::GetMove {}] {
        let first = query(&c, "Alice", msg);
        let second = query(&c, "Alice", msg);
        assert_eq!(first, second);
    }
}

#[test]
fn restart_over_a_decided_match() {
    let (mut c, _) = instantiate("Alice");
    try_start_game(&mut c, "Alice", "Bob", true, GameMove::Rock {}).unwrap();
    submit_move(&mut c, "Bob", GameMove::Rock {}).unwrap();
    try_start_game(&mut c, "Alice", "Carol", true, GameMove::Scissors {}).unwrap();
    assert_eq!(query_opponent(&c, "Alice").unwrap().opponent, "Carol");
    assert_eq!(query_move(&c, "Alice").unwrap().move_type, GameMove::Scissors {});
    // the old opponent is no longer in the match, the new one may move
    assert_eq!(submit_move(&mut c, "Bob", GameMove::Paper {}), Err(ContractError::Unauthorized));
    let res = submit_move(&mut c, "Carol", GameMove::Scissors {}).unwrap();
    assert_eq!(res.attributes, vec![attr("method", "submit_move"), attr("result", "tie")]);
}

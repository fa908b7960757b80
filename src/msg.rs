use vstd::prelude::*;

verus! {

/// One of the three moves a player can make.
#[derive(Clone, Copy, Debug, PartialEq, Eq, Structural)]
pub enum GameMove {
    Rock {},
    Paper {},
    Scissors {},
}

/// The outcome of a match, seen from the host's side.
#[derive(Clone, Copy, Debug, PartialEq, Eq, Structural)]
pub enum GameResult {
    HostWins {},
    OpponentWins {},
    Tie {},
}

/// The instantiate request; it carries nothing, the owner is the caller.
#[derive(Clone, Copy, Debug, PartialEq, Eq, Structural)]
pub struct InstantiateMsg {}

/// The requests that change a contract's state.
#[derive(Clone, Debug, PartialEq, Eq)]
pub enum ExecuteMsg {
    /// The owner starts a match against `opponent`, committing `host_move`.
    StartGame { opponent: String, host_move: GameMove },
    /// The opponent of the owner's match answers with `player_move`.
    SubmitMove { player_move: GameMove },
}

/// The read-only requests.
#[derive(Clone, Copy, Debug, PartialEq, Eq, Structural)]
pub enum QueryMsg {
    /// The opponent in the caller's match.
    GetOpponent {},
    /// The host's move in the caller's match.
    GetMove {},
    /// The owner of this instance.
    GetOwner {},
}

#[derive(Clone, Copy, Debug, PartialEq, Eq, Structural)]
pub struct MoveResponse {
    pub move_type: GameMove,
}

#[derive(Clone, Debug, PartialEq, Eq)]
pub struct OpponentResponse {
    pub opponent: String,
}

#[derive(Clone, Debug, PartialEq, Eq)]
pub struct OwnerResponse {
    pub owner: String,
}

/// The answer to a query, one variant per kind of query.
#[derive(Clone, Debug, PartialEq, Eq)]
pub enum QueryResponse {
    Move(MoveResponse),
    Opponent(OpponentResponse),
    Owner(OwnerResponse),
}

/// One key-value pair that describes what an operation did.
#[derive(Clone, Debug, PartialEq, Eq)]
pub struct Attribute {
    pub key: String,
    pub value: String,
}

/// What a successful operation reports.
#[derive(Clone, Debug, PartialEq, Eq)]
pub struct Response {
    pub attributes: Vec<Attribute>,
}

pub open spec fn attribute_view(a: Attribute) -> (Seq<char>, Seq<char>) {
    (a.key@, a.value@)
}

impl View for Response {
    type V = Seq<(Seq<char>, Seq<char>)>;

    open spec fn view(&self) -> Seq<(Seq<char>, Seq<char>)> {
        self.attributes@.map_values(|a: Attribute| attribute_view(a))
    }
}

/// An attribute from two string slices.
pub fn attribute(key: &str, value: &str) -> (r: Attribute)
    ensures
        attribute_view(r) == (key@, value@),
{
    Attribute { key: key.to_string(), value: value.to_string() }
}

/// The name a result goes by in a response.
pub open spec fn result_label(g: GameResult) -> Seq<char> {
    match g {
        GameResult::HostWins {} => "host_wins"@,
        GameResult::OpponentWins {} => "opponent_wins"@,
        GameResult::Tie {} => "tie"@,
    }
}

impl GameResult {
    /// The name this result goes by in a response.
    pub fn label(&self) -> (r: &'static str)
        ensures
            r@ == result_label(*self),
    {
        match self {
            GameResult::HostWins {} => "host_wins",
            GameResult::OpponentWins {} => "opponent_wins",
            GameResult::Tie {} => "tie",
        }
    }
}

/// The report of an instantiation by `sender`, who becomes host and owner.
pub fn instantiate_reply(sender: &str) -> (r: Response)
    ensures
        r@ == seq![("method"@, "instantiate"@), ("host"@, sender@), ("owner"@, sender@)],
{
    let r = Response {
        attributes: vec![
            attribute("method", "instantiate"),
            attribute("host", sender),
            attribute("owner", sender),
        ],
    };
    assert(r@ =~= seq![("method"@, "instantiate"@), ("host"@, sender@), ("owner"@, sender@)]);
    r
}

/// The report of a game that was started.
pub fn start_game_reply() -> (r: Response)
    ensures
        r@ == seq![("method"@, "start_game"@)],
{
    let r = Response { attributes: vec![attribute("method", "start_game")] };
    assert(r@ =~= seq![("method"@, "start_game"@)]);
    r
}

/// The report of a move that decided a match with `result`.
pub fn submit_move_reply(result: GameResult) -> (r: Response)
    ensures
        r@ == seq![("method"@, "submit_move"@), ("result"@, result_label(result))],
{
    let r = Response {
        attributes: vec![attribute("method", "submit_move"), attribute("result", result.label())],
    };
    assert(r@ =~= seq![("method"@, "submit_move"@), ("result"@, result_label(result))]);
    r
}

} // verus!

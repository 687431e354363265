//! Turn bookkeeping and action generation: the players, whose turn it is,
//! how many actions remain, and the derivation of the legal move set for
//! the active player from the current state.

use vstd::prelude::*;
use crate::cities::{grid_row, lemma_grid_in_range, CITY_COUNT, Virus};
use crate::errors::Error;

verus! {

/// How many players take part in a game. Player identity is position in
/// the player list, not a separate id field.
pub const PLAYER_COUNT: usize = 4;

/// The action budget a player receives at the start of each turn.
pub const ACTIONS_PER_TURN: i8 = 4;

/// One participant: a current city and a disease-color affiliation.
#[derive(Debug, Clone, Copy, PartialEq, Eq, Structural)]
pub struct Player {
    pub city: usize,
    pub color: Virus,
}

/// A proposed legal game action. Currently the only variant is a move
/// along a travel edge; the set is meant to grow (treat, build, cure)
/// without breaking existing exhaustive matches.
#[derive(Debug, Clone, Copy, PartialEq, Eq, Structural)]
pub enum Action {
    Move { player: usize, city: usize },
}

/// The aggregate turn state: all players, whose turn it is, and how many
/// actions remain in the current turn.
#[derive(Debug, Clone)]
pub struct State {
    pub actions: i8,
    pub players: Vec<Player>,
    pub active_player: usize,
}

/// The players of the published starting snapshot: all four in city 1,
/// one per color.
pub open spec fn start_players() -> Seq<Player> {
    seq![
        (Player { city: 1, color: Virus::Red }),
        (Player { city: 1, color: Virus::Black }),
        (Player { city: 1, color: Virus::Blue }),
        (Player { city: 1, color: Virus::Yellow }),
    ]
}

/// One `Move` action for each id in `row`, in `row`'s order, all
/// attributed to `player`.
pub open spec fn moves_of(player: usize, row: Seq<usize>) -> Seq<Action> {
    row.map_values(|c: usize| (Action::Move { player: player, city: c }))
}

/// The exhaustive legal move list for `s`'s active player: one move per
/// neighbor of the city that player currently occupies, in the adjacency
/// table's declared order.
pub open spec fn legal_actions_of(s: State) -> Seq<Action> {
    moves_of(s.active_player, grid_row(s.players@[s.active_player as int].city as int))
}

/// What a successful move transition does: `player`'s city becomes
/// `destination`, one action is consumed, and nothing else changes.
pub open spec fn moved(pre: State, post: State, player: usize, destination: usize) -> bool {
    &&& post.actions == pre.actions - 1
    &&& post.active_player == pre.active_player
    &&& post.players@ == pre.players@.update(
        player as int,
        (Player { city: destination, color: pre.players@[player as int].color }),
    )
}

impl State {
    /// The state invariant: exactly four players, a valid active player
    /// index, a nonnegative action count, and every player on the board.
    pub open spec fn wf(self) -> bool {
        &&& self.players@.len() == PLAYER_COUNT
        &&& self.active_player < PLAYER_COUNT
        &&& self.actions >= 0
        &&& forall|i: int|
            0 <= i < self.players@.len() ==> (#[trigger] self.players@[i]).city < CITY_COUNT
    }

    /// Which refusal, if any, a move request meets, checked in this order:
    /// the mover must be the active player, an action must remain, and the
    /// destination must be adjacent to the mover's current city.
    pub open spec fn move_error(self, player: usize, destination: usize) -> Option<Error> {
        if player != self.active_player {
            Some(Error::IllegalMove)
        } else if self.actions <= 0 {
            Some(Error::NoActionsRemaining)
        } else if !grid_row(self.players@[player as int].city as int).contains(destination) {
            Some(Error::NotAdjacent)
        } else {
            None
        }
    }

    /// The player whose turn it currently is.
    pub fn get_active_player(&self) -> (r: &Player)
        requires
            self.wf(),
        ensures
            *r == self.players@[self.active_player as int],
    {
        &self.players[self.active_player]
    }

    /// Moves `player` to `destination` and consumes one action.
    ///
    /// Succeeds exactly when `player` is the active player, at least one
    /// action remains, and `destination` is a neighbor of `player`'s
    /// current city; on any refusal the state is left untouched and the
    /// reason is returned.
    pub fn apply_move(&mut self, player: usize, destination: usize) -> (r: Result<(), Error>)
        requires
            old(self).wf(),
        ensures
            final(self).wf(),
            old(self).move_error(player, destination) matches Some(e)
                ==> r == Err::<(), Error>(e) && *final(self) == *old(self),
            old(self).move_error(player, destination) is None
                ==> r == Ok::<(), Error>(())
                    && moved(*old(self), *final(self), player, destination),
    {
        if player != self.active_player {
            return Err(Error::IllegalMove);
        }
        if self.actions <= 0 {
            return Err(Error::NoActionsRemaining);
        }
        let current = self.players[player].city;
        let row = crate::cities::city_row(current);
        if !contains_id(&row, destination) {
            return Err(Error::NotAdjacent);
        }
        proof {
            let row_s = grid_row(current as int);
            let k = choose|k: int| 0 <= k < row_s.len() && row_s[k] == destination;
            lemma_grid_in_range(current as int, k);
        }
        let color = self.players[player].color;
        self.players.set(player, Player { city: destination, color });
        self.actions = self.actions - 1;
        Ok(())
    }

    /// Passes play to the next player and resets the action budget.
    ///
    /// By policy this may be invoked voluntarily, even while actions
    /// remain: a player is allowed to forfeit the rest of the turn.
    pub fn end_turn(&mut self)
        requires
            old(self).wf(),
        ensures
            final(self).wf(),
            final(self).active_player == (old(self).active_player + 1) % (PLAYER_COUNT as int),
            final(self).actions == ACTIONS_PER_TURN,
            final(self).players == old(self).players,
    {
        self.active_player = (self.active_player + 1) % PLAYER_COUNT;
        self.actions = ACTIONS_PER_TURN;
    }
}

/// Whether `x` occurs in `row`.
fn contains_id(row: &Vec<usize>, x: usize) -> (b: bool)
    ensures
        b == row@.contains(x),
{
    let mut i: usize = 0;
    while i < row.len()
        invariant
            i <= row@.len(),
            forall|k: int| 0 <= k < i ==> row@[k] != x,
        decreases row@.len() - i,
    {
        if row[i] == x {
            proof {
                assert(row@[i as int] == x);
            }
            return true;
        }
        i += 1;
    }
    false
}

/// The published starting snapshot: four players, all in city 1, active
/// player 0, a full action budget.
pub fn start_state() -> (r: State)
    ensures
        r.wf(),
        r.actions == ACTIONS_PER_TURN,
        r.active_player == 0,
        r.players@ == start_players(),
{
    let mut players: Vec<Player> = Vec::new();
    players.push(Player { city: 1, color: Virus::Red });
    players.push(Player { city: 1, color: Virus::Black });
    players.push(Player { city: 1, color: Virus::Blue });
    players.push(Player { city: 1, color: Virus::Yellow });
    let r = State { actions: ACTIONS_PER_TURN, players, active_player: 0 };
    proof {
        assert(r.players@ =~= start_players());
    }
    r
}

/// The exhaustive, order-preserving legal move list for the active player.
///
/// Pure: it observes the state and the travel network, mutates nothing,
/// and is deterministic for a given state. It deliberately does not check
/// the remaining action count: it answers "what moves exist on the graph",
/// and a caller that wants "what is currently permitted" checks the budget
/// itself. A city without neighbors yields the empty list, a legal
/// outcome, not an error.
pub fn get_actions(state: &State) -> (r: Vec<Action>)
    requires
        state.wf(),
    ensures
        r@ == legal_actions_of(*state),
{
    let active = state.active_player;
    let city = state.players[active].city;
    let row = crate::cities::city_row(city);
    let mut r: Vec<Action> = Vec::new();
    let mut i: usize = 0;
    while i < row.len()
        invariant
            i <= row@.len(),
            row@ == grid_row(city as int),
            r@.len() == i,
            forall|k: int|
                0 <= k < i ==> #[trigger] r@[k] == (Action::Move {
                    player: active,
                    city: row@[k],
                }),
        decreases row@.len() - i,
    {
        r.push(Action::Move { player: active, city: row[i] });
        i += 1;
    }
    proof {
        assert(r@ =~= legal_actions_of(*state));
    }
    r
}

/// Generating actions is idempotent: two results computed from the same
/// unchanged state are the same list, element for element and in order.
pub proof fn lemma_get_actions_deterministic(s: State, r1: Seq<Action>, r2: Seq<Action>)
    requires
        r1 == legal_actions_of(s),
        r2 == legal_actions_of(s),
    ensures
        r1 == r2,
{
}

/// A move is reflected immediately: after the active player moves to
/// `destination`, the legal move list is exactly the moves to each
/// neighbor of `destination`, still attributed to that player.
pub proof fn lemma_actions_after_move(pre: State, post: State, destination: usize)
    requires
        pre.wf(),
        pre.move_error(pre.active_player, destination) is None,
        moved(pre, post, pre.active_player, destination),
    ensures
        legal_actions_of(post) == moves_of(post.active_player, grid_row(destination as int)),
{
    assert(post.players@[post.active_player as int].city == destination);
}

/// At every state the engine hands out — the starting snapshot and the
/// result of any transition — the active player index is in [0, 3] and
/// the remaining action count is nonnegative.
pub proof fn lemma_wf_bounds(s: State)
    requires
        s.wf(),
    ensures
        0 <= s.active_player < 4,
        s.actions >= 0,
{
}

} // verus!

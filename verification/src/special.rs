use vstd::prelude::*;
use crate::player::{Player, PlayerRole};
use crate::gamesession::{InternalState, StateView, player_views};

verus! {

/// The night phase in which the detective investigates.
pub struct SpecialState {
    pub state: InternalState,
}

impl View for SpecialState {
    type V = StateView;

    open spec fn view(&self) -> StateView {
        self.state@
    }
}

/// Why `player` may not learn the role of `subject`, if there is a reason.
/// (A dead subject is no reason: see [`SpecialState::detective_detect_role`].)
pub open spec fn detect_error(s: StateView, player: usize, subject: usize) -> Option<Seq<char>> {
    if player >= s.players.len() {
        Some("Player doesn't exist."@)
    } else if s.players[player as int].is_ghost {
        Some("Player is ghost."@)
    } else if s.players[player as int].role != PlayerRole::Detective {
        Some("Player is not a detective."@)
    } else if subject >= s.players.len() {
        Some("Subject doesn't exist."@)
    } else {
        None
    }
}

impl SpecialState {
    pub fn new(state: InternalState) -> (s: SpecialState)
        ensures
            s@ == state@,
    {
        SpecialState { state: state }
    }

    /// The seated players.
    pub(crate) fn players(&self) -> (ps: &Vec<Player>)
        ensures
            player_views(ps@) == self@.players,
    {
        &self.state.players
    }

    /// Ends the phase: the game's state, as it stands.
    pub fn finish(self) -> (s: InternalState)
        ensures
            s@ == self@,
    {
        self.state
    }

    /// The role of `subject`, as the living detective `player` learns it.
    pub fn detective_detect_role(&self, player: usize, subject: usize) -> (r: Result<
        &PlayerRole,
        &'static str,
    >)
        ensures
            r is Ok <==> detect_error(self@, player, subject) is None,
            r matches Ok(role) ==> *role == self@.players[subject as int].role,
            r matches Err(e) ==> detect_error(self@, player, subject) == Some(e@),
    {
        let n = self.state.players.len();
        if player >= n {
            return Err("Player doesn't exist.");
        } else if self.state.players[player].is_ghost() {
            return Err("Player is ghost.");
        } else if *self.state.players[player].role() != PlayerRole::Detective {
            return Err("Player is not a detective.");
        }
        if subject >= n {
            return Err("Subject doesn't exist.");
        } else if self.state.players[player].is_ghost() {
            // This looks at the investigator again, who is alive by now:
            // a dead subject can be investigated.
            return Err("Subject is ghost.");
        }
        return Ok(self.state.players[subject].role());
    }
}

} // verus!

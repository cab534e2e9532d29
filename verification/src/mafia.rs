use vstd::prelude::*;
use crate::player::{Player, PlayerRole};
use crate::gamesession::{InternalState, StateView, player_views};

verus! {

/// The night phase in which the mafia chooses a victim.
pub struct MafiaState {
    state: InternalState,
}

impl View for MafiaState {
    type V = StateView;

    closed spec fn view(&self) -> StateView {
        self.state@
    }
}

/// Whether `killer` is a living mafioso.
pub open spec fn may_kill(s: StateView, killer: usize) -> bool {
    &&& killer < s.players.len()
    &&& s.players[killer as int].role == PlayerRole::Mafia
    &&& !s.players[killer as int].is_ghost
}

impl MafiaState {
    pub fn new(state: InternalState) -> (s: MafiaState)
        ensures
            s@ == state@,
    {
        MafiaState { state: state }
    }

    /// The seated players.
    pub(crate) fn players(&self) -> (ps: &Vec<Player>)
        ensures
            player_views(ps@) == self@.players,
    {
        &self.state.players
    }

    /// Ends the phase: the game's state, as it stands.
    pub fn finish(self) -> (s: InternalState)
        ensures
            s@ == self@,
    {
        self.state
    }

    fn can_kill(&self, killer_id: usize) -> (b: bool)
        ensures
            b == may_kill(self@, killer_id),
    {
        if killer_id >= self.state.players.len() {
            return false;
        }
        let killer = &self.state.players[killer_id];
        return *killer.role() == PlayerRole::Mafia && !killer.is_ghost();
    }

    /// A mafia vote of `killer_id` against `victim_id`. The player looked
    /// up as the victim is the one numbered `killer_id`, so a living
    /// mafioso's vote hands back that mafioso and `victim_id` plays no
    /// part; nobody is killed.
    pub fn mafia_vote(&mut self, killer_id: usize, victim_id: usize) -> (r: Result<
        &Player,
        &'static str,
    >)
        ensures
            final(self)@ == old(self)@,
            r is Ok <==> may_kill(old(self)@, killer_id),
            r matches Ok(p) ==> p@ == old(self)@.players[killer_id as int],
            r matches Err(e) ==> e@ == "Killer wasn't allowed to kill."@,
    {
        if !self.can_kill(killer_id) {
            return Err("Killer wasn't allowed to kill.");
        }
        let victim = &self.state.players[killer_id];
        if !victim.is_ghost() {
            return Ok(victim);
        }
        return Err("Couldn't kill the victim.");
    }
}

} // verus!

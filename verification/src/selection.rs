use vstd::prelude::*;
use crate::player::{Player, PlayerRole, PlayerView};
use crate::gamesession::{InternalState, StateView, player_views};
use crate::rng;

verus! {

/// The role dealt to the `slot`-th seat (counting from one): every ninth
/// seat a detective, every other fourth seat a mafioso, a civilian else.
pub open spec fn role_for_slot(slot: nat) -> PlayerRole {
    if slot % 9 == 0 {
        PlayerRole::Detective
    } else if slot % 4 == 0 {
        PlayerRole::Mafia
    } else {
        PlayerRole::Civilian
    }
}

/// The roles dealt to a game of `n` players, before they are shuffled.
pub open spec fn role_pool(n: nat) -> Seq<PlayerRole> {
    Seq::new(n, |i: int| role_for_slot((i + 1) as nat))
}

/// The roles of a sequence of players.
pub open spec fn roles_of(players: Seq<PlayerView>) -> Seq<PlayerRole> {
    players.map_values(|p: PlayerView| p.role)
}

/// `after` is `before` with new roles: the same players, names and deaths.
pub open spec fn same_but_roles(before: Seq<PlayerView>, after: Seq<PlayerView>) -> bool {
    &&& after.len() == before.len()
    &&& forall|i: int|
        0 <= i < before.len() ==> #[trigger] after[i].name == before[i].name && after[i].is_ghost
            == before[i].is_ghost
}

/// The roles for a game of `n` players, in seat order.
pub fn roles_for(n: usize) -> (roles: Vec<PlayerRole>)
    ensures
        roles@ == role_pool(n as nat),
{
    let mut roles: Vec<PlayerRole> = Vec::with_capacity(n);
    let mut i: usize = 0;
    while i < n
        invariant
            i <= n,
            roles@ == role_pool(i as nat),
        decreases n - i,
    {
        let slot = i + 1;
        if slot % 9 == 0 {
            roles.push(PlayerRole::Detective);
        } else if slot % 4 == 0 {
            roles.push(PlayerRole::Mafia);
        } else {
            roles.push(PlayerRole::Civilian);
        }
        assert(roles@ =~= role_pool((i + 1) as nat));
        i += 1;
    }
    roles
}

/// The phase in which players join, leave, and are dealt their roles.
pub struct SelectionState {
    state: InternalState,
}

impl View for SelectionState {
    type V = StateView;

    closed spec fn view(&self) -> StateView {
        self.state@
    }
}

impl SelectionState {
    pub fn new(state: InternalState) -> (s: SelectionState)
        ensures
            s@ == state@,
    {
        SelectionState { state: state }
    }

    /// The seated players.
    pub(crate) fn players(&self) -> (ps: &Vec<Player>)
        ensures
            player_views(ps@) == self@.players,
    {
        &self.state.players
    }

    /// Ends the phase: the game's state, as it stands.
    pub fn finish(self) -> (s: InternalState)
        ensures
            s@ == self@,
    {
        self.state
    }

    /// Seats a new player without a role; their number comes back.
    pub fn add_player(&mut self, name: String) -> (id: usize)
        ensures
            id == old(self)@.players.len(),
            final(self)@ == (StateView {
                players: old(self)@.players.push(
                    PlayerView { name: name@, role: PlayerRole::Unassigned, is_ghost: false },
                ),
                ..old(self)@
            }),
    {
        let p = Player::new(name);
        self.state.players.push(p);
        assert(self@.players =~= old(self)@.players.push(p@));
        return self.state.players.len() - 1;
    }

    pub fn get_player_role(&self, plr: usize) -> (r: &PlayerRole)
        requires
            plr < self@.players.len(),
        ensures
            *r == self@.players[plr as int].role,
    {
        return self.state.players[plr].role();
    }

    /// The number of seated players.
    pub fn get_player_count(&self) -> (n: usize)
        ensures
            n == self@.players.len(),
    {
        self.state.players.len()
    }

    /// Removes player `plr`; the last player takes their number.
    pub fn drop_player(&mut self, plr: usize)
        requires
            plr < old(self)@.players.len(),
        ensures
            final(self)@ == (StateView {
                players: old(self)@.players.update(plr as int, old(self)@.players.last()).drop_last(),
                ..old(self)@
            }),
    {
        self.state.players.swap_remove(plr);
        assert(self@.players =~= old(self)@.players.update(
            plr as int,
            old(self)@.players.last(),
        ).drop_last());
    }

    /// Deals `roles` out from the back: the first player gets the last role.
    pub fn assign_shuffled_roles(&mut self, roles: Vec<PlayerRole>)
        requires
            roles@.len() == old(self)@.players.len(),
        ensures
            same_but_roles(old(self)@.players, final(self)@.players),
            roles_of(final(self)@.players) == roles@.reverse(),
            final(self)@.mafia_kill == old(self)@.mafia_kill,
            final(self)@.first_night == old(self)@.first_night,
    {
        let mut roles = roles;
        let n = self.state.players.len();
        let ghost all = roles@;
        let mut i: usize = 0;
        while i < n
            invariant
                n == self.state.players@.len(),
                n == all.len(),
                i <= n,
                roles@ == all.take(n - i),
                same_but_roles(old(self)@.players, self@.players),
                forall|j: int| 0 <= j < i ==> #[trigger] self@.players[j].role == all[n - 1 - j],
                forall|j: int| i <= j < n ==> #[trigger] self@.players[j] == old(self)@.players[j],
                self@.mafia_kill == old(self)@.mafia_kill,
                self@.first_night == old(self)@.first_night,
            decreases n - i,
        {
            let role = roles.pop().unwrap();
            let ghost before = self.state.players@;
            let ghost before_view = self@.players;
            assert(before_view[i as int] == old(self)@.players[i as int]);
            self.state.players[i].assign_role(role);
            assert(all.take(n - i).drop_last() =~= all.take(n - (i + 1)));
            assert(self.state.players@ == before.update(i as int, self.state.players@[i as int]));
            assert forall|j: int| 0 <= j < n && j != i implies #[trigger] self@.players[j]
                == before_view[j] by {}
            i += 1;
        }
        assert(roles_of(self@.players) =~= all.reverse());
    }

    /// Deals the roles of [`role_pool`] out to the players in an order
    /// drawn at random.
    pub fn assign_roles(&mut self)
        ensures
            same_but_roles(old(self)@.players, final(self)@.players),
            roles_of(final(self)@.players).to_multiset() == role_pool(
                old(self)@.players.len(),
            ).to_multiset(),
            final(self)@.mafia_kill == old(self)@.mafia_kill,
            final(self)@.first_night == old(self)@.first_night,
    {
        let mut roles = roles_for(self.state.players.len());
        let mut rng = rng::thread_rng();
        rng::shuffle(&mut rng, &mut roles);
        let ghost shuffled = roles@;
        self.assign_shuffled_roles(roles);
        proof {
            shuffled.lemma_reverse_to_multiset();
        }
    }
}

} // verus!

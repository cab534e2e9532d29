use vstd::prelude::*;
use std::collections::HashMap;
use crate::player::{Player, PlayerRole, PlayerView};
use crate::gamesession::{InternalState, StateView, player_views};

verus! {

broadcast use vstd::std_specs::hash::group_hash_axioms;

#[derive(PartialEq, Eq, Debug, Clone, Copy, Structural)]
enum LynchState {
    Picked,
    Abstained,
}

#[derive(Debug, Clone, Copy)]
struct LynchPlayerState {
    picked: usize,
    state: LynchState,
}

/// A ballot as a value: the victim picked, or `None` for an abstention.
spec fn ballot_of(b: LynchPlayerState) -> Option<usize> {
    match b.state {
        LynchState::Picked => Some(b.picked),
        LynchState::Abstained => None,
    }
}

/// The morning: the town votes on whom to lynch.
pub struct MorningState {
    state: InternalState,
    lynch_state: HashMap<usize, LynchPlayerState>,
}

/// A morning as values: the game's state and the ballot of each voter.
pub struct MorningView {
    pub state: StateView,
    pub ballots: Map<usize, Option<usize>>,
}

impl View for MorningState {
    type V = MorningView;

    closed spec fn view(&self) -> MorningView {
        MorningView {
            state: self.state@,
            ballots: self.lynch_state@.map_values(|b: LynchPlayerState| ballot_of(b)),
        }
    }
}

/// Whether `player` may still cast a ballot this morning.
pub open spec fn may_vote(m: MorningView, player: usize) -> bool {
    &&& !m.state.first_night
    &&& player < m.state.players.len()
    &&& !m.state.players[player as int].is_ghost
    &&& !m.ballots.contains_key(player)
}

/// What every morning satisfies: finitely many ballots, each cast by a
/// seated player, and each pick naming a seated player.
pub open spec fn ballots_wf(m: MorningView) -> bool {
    &&& m.ballots.dom().finite()
    &&& m.state.players.len() <= usize::MAX
    &&& forall|k: usize| #[trigger] m.ballots.contains_key(k) ==> k < m.state.players.len()
    &&& forall|k: usize| #[trigger]
        m.ballots.contains_key(k) ==> (m.ballots[k] is Some ==> m.ballots[k]->Some_0
            < m.state.players.len())
}

/// Why `player` may not vote for `victim`, if there is a reason.
pub open spec fn pick_error(m: MorningView, player: usize, victim: usize) -> Option<Seq<char>> {
    if !may_vote(m, player) {
        Some("Player cannot vote."@)
    } else if victim >= m.state.players.len() {
        Some("Victim not found."@)
    } else if m.state.players[victim as int].is_ghost {
        Some("Victim is a ghost."@)
    } else {
        None
    }
}

/// The number of ballots cast by voters below `upto` that pick `victim`.
pub open spec fn votes_for(ballots: Map<usize, Option<usize>>, victim: usize, upto: nat) -> nat
    decreases upto,
{
    if upto == 0 {
        0
    } else {
        let w = (upto - 1) as usize;
        votes_for(ballots, victim, (upto - 1) as nat) + if ballots.contains_key(w) && ballots[w]
            == Some(victim) {
            1nat
        } else {
            0nat
        }
    }
}

/// Among the first `k` players (of `n`), the first one with the most votes.
pub open spec fn leader_upto(ballots: Map<usize, Option<usize>>, n: nat, k: nat) -> usize
    decreases k,
{
    if k <= 1 {
        0
    } else {
        let prev = leader_upto(ballots, n, (k - 1) as nat);
        if votes_for(ballots, (k - 1) as usize, n) > votes_for(ballots, prev, n) {
            (k - 1) as usize
        } else {
            prev
        }
    }
}

/// The player whom the ballots lynch: the first player with the most votes,
/// if they were picked at all and by at least two fifths of the ballots.
pub open spec fn lynch_choice(m: MorningView) -> Option<usize> {
    let n = m.state.players.len();
    if n == 0 {
        None
    } else {
        let l = leader_upto(m.ballots, n, n);
        let c = votes_for(m.ballots, l, n);
        if c > 0 && 5 * c >= 2 * m.ballots.len() {
            Some(l)
        } else {
            None
        }
    }
}

/// The morning after the lynching that the ballots decide (see
/// [`lynch_choice`]): the lynched player becomes a ghost.
pub open spec fn after_lynch(m: MorningView) -> MorningView {
    match lynch_choice(m) {
        Some(p) => MorningView {
            state: StateView {
                players: m.state.players.update(
                    p as int,
                    PlayerView { is_ghost: true, ..m.state.players[p as int] },
                ),
                ..m.state
            },
            ..m
        },
        None => m,
    }
}

/// The living players that belong to the mafia.
pub open spec fn alive_mafia(players: Seq<PlayerView>) -> nat
    decreases players.len(),
{
    if players.len() == 0 {
        0
    } else {
        let p = players.last();
        alive_mafia(players.drop_last()) + if !p.is_ghost && p.role == PlayerRole::Mafia {
            1nat
        } else {
            0nat
        }
    }
}

/// The living players that do not belong to the mafia.
pub open spec fn alive_others(players: Seq<PlayerView>) -> nat
    decreases players.len(),
{
    if players.len() == 0 {
        0
    } else {
        let p = players.last();
        alive_others(players.drop_last()) + if !p.is_ghost && p.role != PlayerRole::Mafia {
            1nat
        } else {
            0nat
        }
    }
}

/// The team that has won: the town when no mafioso lives, the mafia when
/// they outnumber everyone else alive, and nobody (`Unassigned`) otherwise.
pub open spec fn winner(players: Seq<PlayerView>) -> PlayerRole {
    if alive_mafia(players) == 0 {
        PlayerRole::Civilian
    } else if alive_mafia(players) > alive_others(players) {
        PlayerRole::Mafia
    } else {
        PlayerRole::Unassigned
    }
}

proof fn lemma_keys_below(keys: Set<usize>, n: nat)
    requires
        keys.finite(),
        forall|k: usize| #[trigger] keys.contains(k) ==> k < n,
    ensures
        keys.len() <= n,
    decreases n,
{
    if n == 0 {
        assert(keys =~= Set::<usize>::empty());
    } else {
        let rest = keys.remove((n - 1) as usize);
        lemma_keys_below(rest, (n - 1) as nat);
    }
}

/// Among the first `k` players, the leader has the most votes, and more
/// than every player before them.
pub(crate) proof fn lemma_leader(ballots: Map<usize, Option<usize>>, n: nat, k: nat)
    requires
        1 <= k <= n,
        n <= usize::MAX + 1,
    ensures
        leader_upto(ballots, n, k) < k,
        forall|q: usize| #![trigger votes_for(ballots, q, n)]
            q < k ==> votes_for(ballots, q, n) <= votes_for(
                ballots,
                leader_upto(ballots, n, k),
                n,
            ),
        forall|q: usize| #![trigger votes_for(ballots, q, n)]
            q < leader_upto(ballots, n, k) ==> votes_for(ballots, q, n) < votes_for(
                ballots,
                leader_upto(ballots, n, k),
                n,
            ),
    decreases k,
{
    if k > 1 {
        lemma_leader(ballots, n, (k - 1) as nat);
    }
}

impl MorningState {
    #[verifier::type_invariant]
    spec fn wf(self) -> bool {
        &&& forall|k: usize| #[trigger]
            self.lynch_state@.contains_key(k) ==> k < self.state.players@.len()
        &&& forall|k: usize| #[trigger]
            self.lynch_state@.contains_key(k) ==> self.lynch_state@[k].state == LynchState::Picked
                ==> self.lynch_state@[k].picked < self.state.players@.len()
    }

    proof fn lemma_view(&self)
        ensures
            self@.state.players.len() == self.state.players@.len(),
            self@.ballots.dom() == self.lynch_state@.dom(),
            self@.ballots.len() == self.lynch_state@.len(),
            forall|k: usize| #[trigger]
                self.lynch_state@.contains_key(k) ==> self@.ballots[k] == ballot_of(
                    self.lynch_state@[k],
                ),
    {
        assert(self@.ballots.dom() =~= self.lynch_state@.dom());
    }

    proof fn lemma_wf(&self)
        requires
            self.wf(),
        ensures
            ballots_wf(self@),
    {
        self.lemma_view();
        assert(self.state.players.len() == self.state.players@.len());
        assert(self.lynch_state@.dom().finite());
    }

    /// A morning with no ballots cast yet.
    pub fn new(state: InternalState) -> (m: MorningState)
        ensures
            m@ == (MorningView { state: state@, ballots: Map::empty() }),
            ballots_wf(m@),
    {
        let m = MorningState { state: state, lynch_state: HashMap::new() };
        assert(m@.ballots =~= Map::empty());
        proof {
            use_type_invariant(&m);
            m.lemma_wf();
        }
        m
    }

    /// The seated players.
    pub(crate) fn players(&self) -> (ps: &Vec<Player>)
        ensures
            player_views(ps@) == self@.state.players,
    {
        &self.state.players
    }

    /// Ends the morning: the game's state, with the first night now over.
    pub fn finish(self) -> (s: InternalState)
        ensures
            s@ == (StateView { first_night: false, ..self@.state }),
    {
        let mut s = self.state;
        s.first_night = false;
        s
    }

    /// Whether `player` may cast a ballot now.
    pub fn can_vote(&self, player: usize) -> (b: bool)
        ensures
            b == may_vote(self@, player),
            ballots_wf(self@),
    {
        proof {
            use_type_invariant(self);
            self.lemma_wf();
        }
        if self.state.first_night {
            return false;
        }
        if player >= self.state.players.len() {
            return false;
        }
        if self.state.players[player].is_ghost() {
            return false;
        }
        !self.lynch_state.contains_key(&player)
    }

    /// Which team has won so far, `Unassigned` while the game goes on.
    pub fn has_team_won(&self) -> (r: PlayerRole)
        ensures
            r == winner(self@.state.players),
    {
        let players = &self.state.players;
        let ghost pv = self@.state.players;
        let mut mafia: usize = 0;
        let mut civ: usize = 0;
        let mut i: usize = 0;
        while i < players.len()
            invariant
                i <= players.len(),
                pv == crate::gamesession::player_views(players@),
                mafia == alive_mafia(pv.take(i as int)),
                civ == alive_others(pv.take(i as int)),
                mafia + civ <= i,
            decreases players.len() - i,
        {
            assert(pv.take(i as int + 1).drop_last() =~= pv.take(i as int));
            let plr = &players[i];
            if !plr.is_ghost() {
                if *plr.role() == PlayerRole::Mafia {
                    mafia += 1;
                } else {
                    civ += 1;
                }
            }
            i += 1;
        }
        assert(pv.take(i as int) =~= pv);
        if mafia == 0 {
            return PlayerRole::Civilian;
        }
        if mafia > civ {
            return PlayerRole::Mafia;
        } else {
            return PlayerRole::Unassigned;
        }
    }

    /// Casts an abstention for `player` where they may vote; otherwise
    /// nothing changes.
    pub fn abstain(&mut self, player: usize)
        ensures
            may_vote(old(self)@, player) ==> final(self)@ == (MorningView {
                ballots: old(self)@.ballots.insert(player, None),
                ..old(self)@
            }),
            !may_vote(old(self)@, player) ==> final(self)@ == old(self)@,
            ballots_wf(final(self)@),
    {
        if !self.can_vote(player) {
            return;
        }
        proof {
            use_type_invariant(&*self);
            self.lemma_view();
        }
        let mut ls = HashMap::new();
        std::mem::swap(&mut ls, &mut self.lynch_state);
        ls.insert(player, LynchPlayerState { picked: 0, state: LynchState::Abstained });
        self.lynch_state = ls;
        proof {
            self.lemma_view();
        }
        assert(self@.ballots =~= old(self)@.ballots.insert(player, None));
        proof {
            use_type_invariant(&*self);
            self.lemma_wf();
        }
    }

    /// Checks whether `player` may vote for `victim` now, and why not.
    pub fn check_vote(&self, player: usize, victim: usize) -> (r: Result<(), &'static str>)
        ensures
            r is Ok <==> pick_error(self@, player, victim) is None,
            r matches Err(e) ==> pick_error(self@, player, victim) == Some(e@),
            ballots_wf(self@),
    {
        if !self.can_vote(player) {
            return Err("Player cannot vote.");
        }
        if victim >= self.state.players.len() {
            return Err("Victim not found.");
        }
        if self.state.players[victim].is_ghost() {
            return Err("Victim is a ghost.");
        }
        Ok(())
    }

    /// Casts `player`'s ballot for `victim`; on success, the number of
    /// ballots cast so far.
    pub fn pick_target(&mut self, player: usize, victim: usize) -> (r: Result<usize, &'static str>)
        ensures
            pick_error(old(self)@, player, victim) is None ==> {
                &&& r matches Ok(k) && k == final(self)@.ballots.len()
                &&& final(self)@ == (MorningView {
                    ballots: old(self)@.ballots.insert(player, Some(victim)),
                    ..old(self)@
                })
                &&& final(self)@.ballots.len() == old(self)@.ballots.len() + 1
            },
            pick_error(old(self)@, player, victim) matches Some(msg) ==> {
                &&& r matches Err(e) && e@ == msg
                &&& final(self)@ == old(self)@
            },
            ballots_wf(final(self)@),
    {
        match self.check_vote(player, victim) {
            Err(e) => {
                return Err(e);
            },
            Ok(()) => {},
        }
        proof {
            use_type_invariant(&*self);
            self.lemma_view();
        }
        let mut ls = HashMap::new();
        std::mem::swap(&mut ls, &mut self.lynch_state);
        ls.insert(player, LynchPlayerState { picked: victim, state: LynchState::Picked });
        self.lynch_state = ls;
        proof {
            self.lemma_view();
        }
        assert(self@.ballots =~= old(self)@.ballots.insert(player, Some(victim)));
        proof {
            use_type_invariant(&*self);
            self.lemma_wf();
        }
        Ok(self.lynch_state.len())
    }

    /// Whether every player has cast a ballot.
    pub fn counted_all_votes(&self) -> (b: bool)
        ensures
            b == (self@.state.players.len() == self@.ballots.len()),
            self@.ballots.len() <= self@.state.players.len(),
            ballots_wf(self@),
    {
        proof {
            use_type_invariant(self);
            self.lemma_wf();
            self.lemma_view();
            lemma_keys_below(self.lynch_state@.dom(), self.state.players@.len());
        }
        return self.state.players.len() == self.lynch_state.len();
    }

    /// Whether anyone may vote this morning: not before the first night.
    pub fn can_anyone_vote(&self) -> (b: bool)
        ensures
            b == !self@.state.first_night,
    {
        !self.state.first_night
    }

    /// The number of ballots that pick `victim`.
    fn count_votes(&self, victim: usize) -> (c: usize)
        ensures
            c == votes_for(self@.ballots, victim, self@.state.players.len()),
            c <= self@.state.players.len(),
    {
        proof {
            self.lemma_view();
        }
        let n = self.state.players.len();
        let mut c: usize = 0;
        let mut w: usize = 0;
        while w < n
            invariant
                w <= n,
                n == self@.state.players.len(),
                c == votes_for(self@.ballots, victim, w as nat),
                c <= w,
                self@.ballots.dom() == self.lynch_state@.dom(),
                forall|k: usize| #[trigger]
                    self.lynch_state@.contains_key(k) ==> self@.ballots[k] == ballot_of(
                        self.lynch_state@[k],
                    ),
            decreases n - w,
        {
            match self.lynch_state.get(&w) {
                Some(b) => {
                    if b.state == LynchState::Picked && b.picked == victim {
                        c += 1;
                    }
                },
                None => {},
            }
            w += 1;
        }
        c
    }

    /// Lynches the player whom the ballots pick (see [`lynch_choice`]): they
    /// become a ghost, and their number comes back.
    pub fn lynch_target(&mut self) -> (r: Option<usize>)
        ensures
            r == lynch_choice(old(self)@),
            r matches Some(p) ==> p < old(self)@.state.players.len(),
            final(self)@ == after_lynch(old(self)@),
            ballots_wf(final(self)@),
    {
        proof {
            use_type_invariant(&*self);
            self.lemma_wf();
            self.lemma_view();
        }
        let n = self.state.players.len();
        if n == 0 {
            return None;
        }
        let total = self.lynch_state.len();
        let mut best: usize = 0;
        let mut best_count: usize = self.count_votes(0);
        let mut v: usize = 1;
        while v < n
            invariant
                1 <= v <= n,
                n == self@.state.players.len(),
                best == leader_upto(self@.ballots, n as nat, v as nat),
                best_count == votes_for(self@.ballots, best, n as nat),
                best_count <= n,
            decreases n - v,
        {
            let c = self.count_votes(v);
            if c > best_count {
                best = v;
                best_count = c;
            }
            v += 1;
        }
        proof {
            lemma_leader(self@.ballots, n as nat, n as nat);
        }
        if best_count > 0 && (best_count as u128) * 5 >= (total as u128) * 2 {
            self.state.players[best].kill();
            proof {
                assert(crate::gamesession::player_views(self.state.players@) =~= old(
                    self,
                )@.state.players.update(
                    best as int,
                    PlayerView { is_ghost: true, ..old(self)@.state.players[best as int] },
                ));
                self.lemma_view();
                assert(self@.ballots =~= old(self)@.ballots);
                use_type_invariant(&*self);
                self.lemma_wf();
            }
            return Some(best);
        }
        None
    }
}

} // verus!

use vstd::prelude::*;
use crate::player::{PlayerRole, PlayerView};
use crate::gamesession::{GameSession, SessionView, StateView, empty_state};
use crate::phase::{EGamePhase, GamePhase, next_phase};
use crate::morning::{MorningView, winner, lynch_choice, after_lynch};
use crate::selection::{role_pool, roles_of, same_but_roles};
use crate::ai::{AiTrait, AiCivilian, AiDumb, AiMafia};

verus! {

/// The number of computer players that a local game seats.
pub const CLIENT_PLAYERS: usize = 15;

/// A computer player, of the kind its role calls for.
pub enum AiPlayer {
    Civilian(AiCivilian),
    Mafia(AiMafia),
    Dumb(AiDumb),
}

/// Whether `ai` is the computer player for player `id` holding `role`.
pub open spec fn ai_fits(ai: AiPlayer, id: usize, role: PlayerRole) -> bool {
    match role {
        PlayerRole::Civilian => ai matches AiPlayer::Civilian(a) && a.player_id == id,
        PlayerRole::Mafia => ai matches AiPlayer::Mafia(a) && a.player_id == id,
        _ => ai matches AiPlayer::Dumb(a) && a.player_id == id,
    }
}

/// The computer player for player `player_id`, who holds `role`.
pub fn ai_for_role(role: PlayerRole, player_id: usize) -> (ai: AiPlayer)
    ensures
        ai_fits(ai, player_id, role),
{
    match role {
        PlayerRole::Civilian => AiPlayer::Civilian(AiCivilian { player_id }),
        PlayerRole::Mafia => AiPlayer::Mafia(AiMafia { player_id }),
        _ => AiPlayer::Dumb(AiDumb { player_id }),
    }
}

impl AiPlayer {
    fn phase_morning(&self, state: &mut crate::morning::MorningState)
        ensures
            final(state)@ == old(state)@,
    {
        match self {
            AiPlayer::Civilian(a) => a.phase_morning(state),
            AiPlayer::Mafia(a) => a.phase_morning(state),
            AiPlayer::Dumb(a) => a.phase_morning(state),
        }
    }

    fn phase_special(&self, state: &mut crate::special::SpecialState)
        ensures
            final(state)@ == old(state)@,
    {
        match self {
            AiPlayer::Civilian(a) => a.phase_special(state),
            AiPlayer::Mafia(a) => a.phase_special(state),
            AiPlayer::Dumb(a) => a.phase_special(state),
        }
    }

    fn phase_mafia(&self, state: &mut crate::mafia::MafiaState)
        ensures
            final(state)@ == old(state)@,
    {
        match self {
            AiPlayer::Civilian(a) => a.phase_mafia(state),
            AiPlayer::Mafia(a) => a.phase_mafia(state),
            AiPlayer::Dumb(a) => a.phase_mafia(state),
        }
    }
}

/// What a phase of a local game came to.
#[derive(PartialEq, Eq, Debug, Clone, Copy, Structural)]
pub enum PhaseReport {
    /// The players were seated, given their roles and their computer players.
    Seated,
    /// A team has won; the game is over.
    Won(PlayerRole),
    /// The town lynched this player.
    Lynched(usize),
    /// The town lynched nobody.
    NobodyKilled,
    /// Nobody may be lynched before the first night.
    NoKillsBeforeFirstNight,
    /// A night phase passed.
    Night,
}

/// A game played on this machine by computer players alone.
pub struct LocalGame {
    session: GameSession,
    ai_players: Vec<AiPlayer>,
}

impl LocalGame {
    pub closed spec fn session_view(&self) -> SessionView {
        self.session@
    }

    pub closed spec fn ais(&self) -> Seq<AiPlayer> {
        self.ai_players@
    }

    /// A game that nobody has joined yet.
    pub fn new() -> (g: LocalGame)
        ensures
            g.session_view() == (SessionView { phase: EGamePhase::Selection, state: empty_state() }),
            g.ais().len() == 0,
    {
        LocalGame { session: GameSession::new(), ai_players: Vec::new() }
    }

    pub fn session(&self) -> (s: &GameSession)
        ensures
            s@ == self.session_view(),
    {
        &self.session
    }

    pub fn ai_players(&self) -> (a: &Vec<AiPlayer>)
        ensures
            a@ == self.ais(),
    {
        &self.ai_players
    }

    /// Moves the game on to its next phase.
    pub fn advance(&mut self)
        ensures
            final(self).session_view() == (SessionView {
                phase: next_phase(old(self).session_view().phase),
                ..old(self).session_view()
            }),
            final(self).ais() == old(self).ais(),
    {
        self.session.phase_end();
    }

    /// Plays the current phase: seating the first fifteen `names` in the
    /// selection phase, checking for a winner and lynching in the morning,
    /// and letting the computer players act.
    pub fn play_phase(&mut self, names: &Vec<String>) -> (report: PhaseReport)
        requires
            names@.len() >= CLIENT_PLAYERS,
        ensures
            ({
                let s0 = old(self).session_view();
                let s1 = final(self).session_view();
                let st = s0.state;
                &&& s1.phase == s0.phase
                &&& s0.phase == EGamePhase::Selection ==> {
                    let seated = st.players + Seq::new(
                        CLIENT_PLAYERS as nat,
                        |i: int|
                            PlayerView {
                                name: names@[i]@,
                                role: PlayerRole::Unassigned,
                                is_ghost: false,
                            },
                    );
                    &&& report == PhaseReport::Seated
                    &&& same_but_roles(seated, s1.state.players)
                    &&& roles_of(s1.state.players).to_multiset() == role_pool(
                        seated.len(),
                    ).to_multiset()
                    &&& s1.state.first_night == st.first_night
                    &&& s1.state.mafia_kill == st.mafia_kill
                    &&& final(self).ais().len() == old(self).ais().len() + CLIENT_PLAYERS
                    &&& forall|i: int|
                        0 <= i < CLIENT_PLAYERS ==> #[trigger] ai_fits(
                            final(self).ais()[old(self).ais().len() + i],
                            i as usize,
                            s1.state.players[i].role,
                        )
                }
                &&& s0.phase != EGamePhase::Selection ==> final(self).ais() == old(self).ais()
                &&& s0.phase == EGamePhase::Morning ==> {
                    let m0 = MorningView { state: st, ballots: Map::empty() };
                    &&& winner(st.players) != PlayerRole::Unassigned ==> report == PhaseReport::Won(
                        winner(st.players),
                    ) && s1.state == (StateView { first_night: false, ..st })
                    &&& (winner(st.players) == PlayerRole::Unassigned && st.first_night) ==> report
                        == PhaseReport::NoKillsBeforeFirstNight && s1.state == (StateView {
                        first_night: false,
                        ..st
                    })
                    &&& (winner(st.players) == PlayerRole::Unassigned && !st.first_night) ==> {
                        &&& report == match lynch_choice(m0) {
                            Some(p) => PhaseReport::Lynched(p),
                            None => PhaseReport::NobodyKilled,
                        }
                        &&& s1.state == (StateView { first_night: false, ..after_lynch(m0).state })
                    }
                }
                &&& (s0.phase == EGamePhase::Special || s0.phase == EGamePhase::Mafia) ==> report
                    == PhaseReport::Night && s1.state == st
            }),
    {
        let mut phase = self.session.phase_start();
        let mut report = PhaseReport::Night;
        match &mut phase {
            GamePhase::Selection(state) => {
                let ghost st = state@;
                let mut i: usize = 0;
                while i < CLIENT_PLAYERS
                    invariant
                        i <= CLIENT_PLAYERS,
                        self.session@.phase == old(self).session_view().phase,
                        names@.len() >= CLIENT_PLAYERS,
                        state@.players == st.players + Seq::new(
                            i as nat,
                            |k: int|
                                PlayerView {
                                    name: names@[k]@,
                                    role: PlayerRole::Unassigned,
                                    is_ghost: false,
                                },
                        ),
                        state@.first_night == st.first_night,
                        state@.mafia_kill == st.mafia_kill,
                    decreases CLIENT_PLAYERS - i,
                {
                    state.add_player(names[i].clone());
                    assert(state@.players =~= st.players + Seq::new(
                        (i + 1) as nat,
                        |k: int|
                            PlayerView {
                                name: names@[k]@,
                                role: PlayerRole::Unassigned,
                                is_ghost: false,
                            },
                    ));
                    i += 1;
                }
                state.assign_roles();
                let ghost ais0 = self.ai_players@;
                let mut j: usize = 0;
                while j < CLIENT_PLAYERS
                    invariant
                        j <= CLIENT_PLAYERS,
                        self.session@.phase == old(self).session_view().phase,
                        state@.players.len() >= CLIENT_PLAYERS,
                        self.ai_players@.len() == ais0.len() + j,
                        forall|k: int| 0 <= k < ais0.len() ==> self.ai_players@[k] == ais0[k],
                        forall|k: int|
                            0 <= k < j ==> #[trigger] ai_fits(
                                self.ai_players@[ais0.len() + k],
                                k as usize,
                                state@.players[k].role,
                            ),
                    decreases CLIENT_PLAYERS - j,
                {
                    let role = *state.get_player_role(j);
                    self.ai_players.push(ai_for_role(role, j));
                    j += 1;
                }
                report = PhaseReport::Seated;
            },
            GamePhase::Morning(state) => {
                match state.has_team_won() {
                    PlayerRole::Civilian => {
                        report = PhaseReport::Won(PlayerRole::Civilian);
                    },
                    PlayerRole::Mafia => {
                        report = PhaseReport::Won(PlayerRole::Mafia);
                    },
                    _ => {
                        let mut k: usize = 0;
                        while k < self.ai_players.len()
                            invariant
                                k <= self.ai_players@.len(),
                        self.session@.phase == old(self).session_view().phase,
                                state@ == (MorningView {
                                    state: old(self).session_view().state,
                                    ballots: Map::empty(),
                                }),
                            decreases self.ai_players@.len() - k,
                        {
                            self.ai_players[k].phase_morning(state);
                            k += 1;
                        }
                        if state.can_anyone_vote() {
                            match state.lynch_target() {
                                Some(p) => {
                                    report = PhaseReport::Lynched(p);
                                },
                                None => {
                                    report = PhaseReport::NobodyKilled;
                                },
                            }
                        } else {
                            report = PhaseReport::NoKillsBeforeFirstNight;
                        }
                    },
                }
            },
            GamePhase::Special(state) => {
                let mut k: usize = 0;
                while k < self.ai_players.len()
                    invariant
                        k <= self.ai_players@.len(),
                        self.session@.phase == old(self).session_view().phase,
                        state@ == old(self).session_view().state,
                    decreases self.ai_players@.len() - k,
                {
                    self.ai_players[k].phase_special(state);
                    k += 1;
                }
            },
            GamePhase::Mafia(state) => {
                let mut k: usize = 0;
                while k < self.ai_players.len()
                    invariant
                        k <= self.ai_players@.len(),
                        self.session@.phase == old(self).session_view().phase,
                        state@ == old(self).session_view().state,
                    decreases self.ai_players@.len() - k,
                {
                    self.ai_players[k].phase_mafia(state);
                    k += 1;
                }
            },
        }
        self.session.phase_finish(phase);
        report
    }
}

} // verus!

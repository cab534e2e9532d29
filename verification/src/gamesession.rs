use vstd::prelude::*;
use crate::player::{Player, PlayerView};

verus! {

/// The state of a game that every phase works on.
pub struct InternalState {
    pub players: Vec<Player>,
    pub mafia_kill: isize,
    pub first_night: bool,
}

/// The players of a sequence, as values.
pub open spec fn player_views(players: Seq<Player>) -> Seq<PlayerView> {
    players.map_values(|p: Player| p@)
}

/// What an [`InternalState`] holds, as values.
pub struct StateView {
    pub players: Seq<PlayerView>,
    pub mafia_kill: isize,
    pub first_night: bool,
}

impl View for InternalState {
    type V = StateView;

    open spec fn view(&self) -> StateView {
        StateView {
            players: player_views(self.players@),
            mafia_kill: self.mafia_kill,
            first_night: self.first_night,
        }
    }
}

impl InternalState {
    /// The state of a game that nobody has joined yet.
    pub fn empty() -> (s: InternalState)
        ensures
            s@ == (StateView { players: Seq::empty(), mafia_kill: -1isize, first_night: true }),
    {
        let s = InternalState { players: Vec::new(), mafia_kill: -1, first_night: true };
        assert(s@.players =~= Seq::<PlayerView>::empty());
        s
    }
}

} // verus!

verus! {

use crate::player::PlayerRole;
use crate::channel::EChannel;
use crate::phase::{EGamePhase, GamePhase, next_phase, finished_state, phase_kind, inner_state};
use crate::selection::SelectionState;
use crate::morning::MorningState;
use crate::special::SpecialState;
use crate::mafia::MafiaState;

/// A game: the phase it is in and its state.
///
/// While a phase runs ([`GameSession::phase_start`] to
/// [`GameSession::phase_finish`]) the phase holds the state and the
/// session holds an empty one.
pub struct GameSession {
    phase: EGamePhase,
    state: InternalState,
}

/// A game as values.
pub struct SessionView {
    pub phase: EGamePhase,
    pub state: StateView,
}

impl View for GameSession {
    type V = SessionView;

    closed spec fn view(&self) -> SessionView {
        SessionView { phase: self.phase, state: self.state@ }
    }
}

/// The channels that player `p` may chat on in phase `phase`.
pub open spec fn channels_for(phase: EGamePhase, p: PlayerView) -> Seq<EChannel> {
    if p.is_ghost {
        seq![EChannel::Ghosts]
    } else {
        match phase {
            EGamePhase::Morning | EGamePhase::Selection => seq![EChannel::Global],
            EGamePhase::Special => if p.role == PlayerRole::Detective {
                seq![EChannel::Detective]
            } else {
                seq![EChannel::NoChannel]
            },
            EGamePhase::Mafia => if p.role == PlayerRole::Mafia {
                seq![EChannel::Mafia]
            } else {
                seq![EChannel::NoChannel]
            },
        }
    }
}

/// The state of a game that nobody has joined yet, as values.
pub open spec fn empty_state() -> StateView {
    StateView { players: Seq::empty(), mafia_kill: -1isize, first_night: true }
}

impl GameSession {
    /// A new game, in its selection phase, without players.
    pub fn new() -> (s: GameSession)
        ensures
            s@ == (SessionView { phase: EGamePhase::Selection, state: empty_state() }),
    {
        GameSession { phase: EGamePhase::Selection, state: InternalState::empty() }
    }

    pub fn get_player(&self, i: usize) -> (p: &Player)
        requires
            i < self@.state.players.len(),
        ensures
            p@ == self@.state.players[i as int],
    {
        return &self.state.players[i];
    }

    pub fn get_players(&self) -> (ps: &Vec<Player>)
        ensures
            player_views(ps@) == self@.state.players,
    {
        return &self.state.players;
    }

    /// The phase the game is in.
    pub fn phase(&self) -> (p: EGamePhase)
        ensures
            p == self@.phase,
    {
        self.phase
    }

    /// Starts the current phase: the phase takes the game's state along.
    pub fn phase_start(&mut self) -> (g: GamePhase)
        ensures
            final(self)@ == (SessionView { phase: old(self)@.phase, state: empty_state() }),
            phase_kind(g) == old(self)@.phase,
            inner_state(g) == old(self)@.state,
            g matches GamePhase::Morning(m) ==> m@.ballots == Map::<usize, Option<usize>>::empty(),
    {
        let mut state = InternalState::empty();
        std::mem::swap(&mut state, &mut self.state);
        match self.phase {
            EGamePhase::Selection => return GamePhase::Selection(SelectionState::new(state)),
            EGamePhase::Morning => return GamePhase::Morning(MorningState::new(state)),
            EGamePhase::Special => return GamePhase::Special(SpecialState::new(state)),
            EGamePhase::Mafia => return GamePhase::Mafia(MafiaState::new(state)),
        }
    }

    /// Ends a phase that [`GameSession::phase_start`] began: the game takes
    /// its state back, as the phase leaves it. The phase does not advance.
    pub fn phase_finish(&mut self, g: GamePhase)
        ensures
            final(self)@ == (SessionView { phase: old(self)@.phase, state: finished_state(g) }),
    {
        self.state = g.finish();
    }

    /// Moves the game on to the next phase.
    pub fn phase_end(&mut self)
        ensures
            final(self)@ == (SessionView { phase: next_phase(old(self)@.phase), ..old(self)@ }),
    {
        self.advance_phase();
    }

    fn advance_phase(&mut self)
        ensures
            final(self)@ == (SessionView { phase: next_phase(old(self)@.phase), ..old(self)@ }),
    {
        match self.phase {
            EGamePhase::Selection => self.phase = EGamePhase::Morning,
            EGamePhase::Morning => self.phase = EGamePhase::Special,
            EGamePhase::Special => self.phase = EGamePhase::Mafia,
            EGamePhase::Mafia => self.phase = EGamePhase::Morning,
        }
    }

    /// The channels that player `i` may chat on now.
    pub fn player_channels(&self, i: usize) -> (channels: Vec<EChannel>)
        requires
            i < self@.state.players.len(),
        ensures
            channels@ == channels_for(self@.phase, self@.state.players[i as int]),
    {
        let player: &Player = self.get_player(i);
        channels_of(self.phase, player)
    }
}

/// The channels that `player` may chat on in phase `phase`.
pub fn channels_of(phase: EGamePhase, player: &Player) -> (channels: Vec<EChannel>)
    ensures
        channels@ == channels_for(phase, player@),
{
    let mut channels: Vec<EChannel> = Vec::new();
    if player.is_ghost() {
        channels.push(EChannel::Ghosts);
        assert(channels@ =~= seq![EChannel::Ghosts]);
        return channels;
    }
    match phase {
        EGamePhase::Morning | EGamePhase::Selection => {
            channels.push(EChannel::Global);
        },
        EGamePhase::Special => {
            if *player.role() == PlayerRole::Detective {
                channels.push(EChannel::Detective);
            }
        },
        EGamePhase::Mafia => {
            if *player.role() == PlayerRole::Mafia {
                channels.push(EChannel::Mafia);
            }
        },
    }
    if channels.len() == 0 {
        channels.push(EChannel::NoChannel);
    }
    assert(channels@ =~= channels_for(phase, player@));
    return channels;
}

} // verus!

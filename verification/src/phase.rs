use vstd::prelude::*;
use crate::gamesession::{InternalState, StateView};
use crate::selection::SelectionState;
use crate::morning::MorningState;
use crate::special::SpecialState;
use crate::mafia::MafiaState;

verus! {

/// The phases of a game: selection once, then morning, special and mafia
/// in turn.
#[derive(PartialEq, Eq, Debug, Clone, Copy, Structural)]
pub enum EGamePhase {
    Selection,
    Morning,
    Special,
    Mafia,
}

/// The phase that follows `p`.
pub open spec fn next_phase(p: EGamePhase) -> EGamePhase {
    match p {
        EGamePhase::Selection => EGamePhase::Morning,
        EGamePhase::Morning => EGamePhase::Special,
        EGamePhase::Special => EGamePhase::Mafia,
        EGamePhase::Mafia => EGamePhase::Morning,
    }
}

/// A phase under way, holding the game's state while it runs.
pub enum GamePhase {
    Selection(SelectionState),
    Morning(MorningState),
    Special(SpecialState),
    Mafia(MafiaState),
}

/// Which phase `g` is.
pub open spec fn phase_kind(g: GamePhase) -> EGamePhase {
    match g {
        GamePhase::Selection(_) => EGamePhase::Selection,
        GamePhase::Morning(_) => EGamePhase::Morning,
        GamePhase::Special(_) => EGamePhase::Special,
        GamePhase::Mafia(_) => EGamePhase::Mafia,
    }
}

/// The game's state as the phase `g` holds it while it runs.
pub open spec fn inner_state(g: GamePhase) -> StateView {
    match g {
        GamePhase::Selection(s) => s@,
        GamePhase::Morning(m) => m@.state,
        GamePhase::Special(s) => s@,
        GamePhase::Mafia(s) => s@,
    }
}

/// The game's state once the phase `g` has ended: a morning ends the
/// first night; the other phases leave the state as it is.
pub open spec fn finished_state(g: GamePhase) -> StateView {
    match g {
        GamePhase::Selection(s) => s@,
        GamePhase::Morning(m) => StateView { first_night: false, ..m@.state },
        GamePhase::Special(s) => s@,
        GamePhase::Mafia(s) => s@,
    }
}

impl GamePhase {
    /// Ends the phase and hands back the game's state.
    pub fn finish(self) -> (s: InternalState)
        ensures
            s@ == finished_state(self),
    {
        match self {
            GamePhase::Selection(s) => s.finish(),
            GamePhase::Morning(m) => m.finish(),
            GamePhase::Special(s) => s.finish(),
            GamePhase::Mafia(s) => s.finish(),
        }
    }
}

} // verus!

use vstd::prelude::*;
use crate::morning::MorningState;
use crate::special::SpecialState;
use crate::mafia::MafiaState;

verus! {

/// A computer player: what it does in each phase of a day.
pub trait AiTrait {
    fn phase_morning(&self, state: &mut MorningState);

    fn phase_special(&self, state: &mut SpecialState);

    fn phase_mafia(&self, state: &mut MafiaState);
}

/// A computer player on the town's side.
pub struct AiCivilian {
    pub player_id: usize,
}

/// A computer player that does nothing.
pub struct AiDumb {
    pub player_id: usize,
}

/// A computer player on the mafia's side.
pub struct AiMafia {
    pub player_id: usize,
}

impl AiTrait for AiCivilian {
    fn phase_morning(&self, state: &mut MorningState)
        ensures
            final(state)@ == old(state)@,
    {
    }

    fn phase_special(&self, state: &mut SpecialState)
        ensures
            final(state)@ == old(state)@,
    {
    }

    fn phase_mafia(&self, state: &mut MafiaState)
        ensures
            final(state)@ == old(state)@,
    {
    }
}

impl AiTrait for AiDumb {
    fn phase_morning(&self, state: &mut MorningState)
        ensures
            final(state)@ == old(state)@,
    {
    }

    fn phase_special(&self, state: &mut SpecialState)
        ensures
            final(state)@ == old(state)@,
    {
    }

    fn phase_mafia(&self, state: &mut MafiaState)
        ensures
            final(state)@ == old(state)@,
    {
    }
}

impl AiTrait for AiMafia {
    fn phase_morning(&self, state: &mut MorningState)
        ensures
            final(state)@ == old(state)@,
    {
    }

    fn phase_special(&self, state: &mut SpecialState)
        ensures
            final(state)@ == old(state)@,
    {
    }

    fn phase_mafia(&self, state: &mut MafiaState)
        ensures
            final(state)@ == old(state)@,
    {
    }
}

} // verus!

use vstd::prelude::*;

verus! {

/// The chat channels of a game.
#[derive(PartialEq, Eq, Debug, Clone, Copy, Structural)]
pub enum EChannel {
    NoChannel,
    Global,
    Ghosts,
    Mafia,
    Detective,
}

/// The number that stands for a channel on the wire.
pub open spec fn channel_number(c: EChannel) -> u32 {
    match c {
        EChannel::NoChannel => 0,
        EChannel::Global => 1,
        EChannel::Ghosts => 2,
        EChannel::Mafia => 3,
        EChannel::Detective => 4,
    }
}

impl EChannel {
    /// The number that stands for the channel on the wire.
    pub fn number(&self) -> (n: u32)
        ensures
            n == channel_number(*self),
    {
        match self {
            EChannel::NoChannel => 0,
            EChannel::Global => 1,
            EChannel::Ghosts => 2,
            EChannel::Mafia => 3,
            EChannel::Detective => 4,
        }
    }
}

/// What a message on a channel says happened.
#[derive(PartialEq, Eq, Debug, Clone, Copy, Structural)]
pub enum EChannelMsgAction {
    NewPhase,
    VoteToLynch,
    VoteToMafiaKill,
    PlayerKilled,
    ClaimIsMafia,
    ClaimIsDetective,
    ClaimIsCiv,
}

/// A message on a channel: who sent it, whom it concerns, and what it says.
pub struct ChannelMsg {
    from: usize,
    other: usize,
    channel: EChannel,
    action: EChannelMsgAction,
}

} // verus!

use vstd::prelude::*;
use crate::gamesession::{GameSession, SessionView, StateView, empty_state};
use crate::packet::RequestType;
use crate::phase::{EGamePhase, GamePhase, next_phase};
use crate::morning::{MorningView, pick_error};
use crate::packetphase::{
    Request, Reply, Outgoing, phase_selection, phase_morning, phase_special, phase_mafia,
    vote_of, response_of, morning_after, is_plain, is_error, selection_outcome, morning_outcome,
    special_outcome, mafia_outcome,
};

verus! {

/// A universally unique identifier of the `uuid` crate.
#[verifier::external_type_specification]
#[verifier::external_body]
pub struct ExUuid(uuid::Uuid);

/// Calls `uuid::Uuid::new_v4`, which draws a random identifier from the
/// system's generator. Nothing is stated of it: it is chance. `uuid`
/// panics there when the system's generator fails, which no `requires`
/// can rule out.
#[verifier::external_body]
fn new_v4() -> uuid::Uuid {
    uuid::Uuid::new_v4()
}

/// Whether `c` is a lower-case hexadecimal digit.
pub open spec fn is_lower_hex(c: char) -> bool {
    ('0' <= c && c <= '9') || ('a' <= c && c <= 'f')
}

/// Calls `uuid::Uuid::to_simple` and formats the result: the identifier
/// as 32 lower-case hexadecimal digits, two for each of its 16 bytes.
/// Claimed: the length and the digits; which digits stand for which
/// identifier is left unsaid, as the identifier is opaque here.
#[verifier::external_body]
fn simple_string(id: uuid::Uuid) -> (s: String)
    ensures
        s@.len() == 32,
        forall|i: int| 0 <= i < 32 ==> #[trigger] is_lower_hex(s@[i]),
{
    id.to_simple().to_string()
}

/// The server's side of one connection: a game, its identifier, and
/// whether a client has asked for the game yet.
pub struct GameServer {
    session: GameSession,
    uuid: String,
    has_started: bool,
}

/// A server as values.
pub struct ServerView {
    pub session: SessionView,
    pub uuid: Seq<char>,
    pub has_started: bool,
}

impl View for GameServer {
    type V = ServerView;

    closed spec fn view(&self) -> ServerView {
        ServerView { session: self.session@, uuid: self.uuid@, has_started: self.has_started }
    }
}

/// What handling one request comes to: the packets to send, and whether
/// the connection ends there (a refused morning vote ends it).
pub struct ServerStep {
    pub outgoing: Vec<Outgoing>,
    pub aborted: bool,
}

/// `o` answers a new-game request of a game with identifier `uuid` that had
/// not started.
pub open spec fn is_new_game(o: Outgoing, uuid: Seq<char>) -> bool {
    &&& o.request_type == RequestType::NEWGAME
    &&& o.reply matches Reply::NewGame { uuid: u, has_started }
    &&& u@ == uuid
    &&& !has_started
}

/// Whether a morning vote is refused in a game in state `st`: the morning
/// that each packet starts has no ballots yet.
pub open spec fn vote_refused(phase: EGamePhase, st: StateView, req: Request) -> bool {
    &&& phase == EGamePhase::Morning
    &&& req.request_type == RequestType::VOTE
    &&& pick_error(
        MorningView { state: st, ballots: Map::empty() },
        vote_of(req.message).0 as usize,
        vote_of(req.message).1 as usize,
    ) is Some
}

/// The error that a refused morning vote is answered with.
pub open spec fn refusal(st: StateView, req: Request) -> Seq<char> {
    pick_error(
        MorningView { state: st, ballots: Map::empty() },
        vote_of(req.message).0 as usize,
        vote_of(req.message).1 as usize,
    )->Some_0
}

/// Whether a request of kind `t` carries a message in its payload.
pub open spec fn carries_message(t: RequestType) -> bool {
    ||| t == RequestType::ADDPLAYER
    ||| t == RequestType::REMOVEPLAYER
    ||| t == RequestType::CHATCHANNELS
    ||| t == RequestType::VOTE
    ||| t == RequestType::DETECTIVEINVESTIGATE
}

/// Whether handling a request of kind `t` reads its payload, in a server in
/// state `s`: the request carries a message, the game has started, and the
/// request applies to the phase the game is in.
pub open spec fn payload_read(s: ServerView, t: RequestType) -> bool {
    &&& carries_message(t)
    &&& s.has_started
    &&& !response_of(s.session.phase, s.session.state.players.len(), 0, t).1
}

impl GameServer {
    /// A server with a new game and a fresh random identifier.
    pub fn new() -> (s: GameServer)
        ensures
            s@.session == (SessionView { phase: EGamePhase::Selection, state: empty_state() }),
            !s@.has_started,
            s@.uuid.len() == 32,
            forall|i: int| 0 <= i < 32 ==> #[trigger] is_lower_hex(s@.uuid[i]),
    {
        let uuid = simple_string(new_v4());
        GameServer { session: GameSession::new(), uuid: uuid, has_started: false }
    }

    /// The game this server runs.
    pub fn session(&self) -> (s: &GameSession)
        ensures
            s@ == self@.session,
    {
        &self.session
    }

    /// Whether the next request, of kind `t`, has its payload read: a request
    /// that does not apply is answered without it.
    pub fn reads_payload(&self, t: RequestType) -> (b: bool)
        ensures
            b == payload_read(self@, t),
    {
        if !self.has_started {
            return false;
        }
        match self.session.phase() {
            EGamePhase::Selection => match t {
                RequestType::ADDPLAYER | RequestType::REMOVEPLAYER | RequestType::CHATCHANNELS => true,
                _ => false,
            },
            EGamePhase::Morning => match t {
                RequestType::VOTE | RequestType::CHATCHANNELS => true,
                _ => false,
            },
            EGamePhase::Special => match t {
                RequestType::DETECTIVEINVESTIGATE | RequestType::VOTE | RequestType::CHATCHANNELS => true,
                _ => false,
            },
            EGamePhase::Mafia => match t {
                RequestType::VOTE | RequestType::CHATCHANNELS => true,
                _ => false,
            },
        }
    }

    fn not_applicable() -> (o: Outgoing)
        ensures
            is_error(o, "N_A_TO_STATE"@, "This request is not applicable to this state."@),
    {
        Outgoing {
            request_type: RequestType::ERROR,
            reply: Reply::Error {
                error: "N_A_TO_STATE".to_owned(),
                details: "This request is not applicable to this state.".to_owned(),
            },
        }
    }

    /// Handles one request of a client: a heartbeat is answered in kind, an
    /// unknown request with a failure, a new game is asked for first, and then each request
    /// goes to the phase the game is in.
    pub fn handle_request(&mut self, packet: &Request) -> (step: ServerStep)
        ensures
            ({
                let s0 = old(self)@;
                let s1 = final(self)@;
                let t = packet.request_type;
                let out = step.outgoing@;
                let phase = s0.session.phase;
                let st = s0.session.state;
                let (adv, na) = response_of(phase, st.players.len(), 0, t);
                &&& s1.uuid == s0.uuid
                &&& t == RequestType::UNKNOWN ==> s1 == s0 && !step.aborted && out.len() == 1
                    && is_plain(out[0], RequestType::FAILURE, Reply::Ack)
                &&& t == RequestType::HEARTBEAT ==> s1 == s0 && !step.aborted && out.len() == 1
                    && is_plain(out[0], RequestType::HEARTBEAT, Reply::Ack)
                &&& (t != RequestType::UNKNOWN && t != RequestType::HEARTBEAT && !s0.has_started)
                    ==> {
                    &&& !step.aborted
                    &&& s1.session == s0.session
                    &&& out.len() == 1
                    &&& t == RequestType::NEWGAME ==> s1.has_started && is_new_game(out[0], s0.uuid)
                    &&& t != RequestType::NEWGAME ==> !s1.has_started && is_error(
                        out[0],
                        "N_A_TO_STATE"@,
                        "This request is not applicable to this state."@,
                    )
                }
                &&& (t != RequestType::UNKNOWN && t != RequestType::HEARTBEAT && s0.has_started)
                    ==> {
                    &&& s1.has_started
                    &&& step.aborted == vote_refused(phase, st, *packet)
                    &&& step.aborted ==> out.len() == 1 && is_error(
                        out[0],
                        "COULD_NOT_VOTE"@,
                        refusal(st, *packet),
                    ) && s1.session == (SessionView {
                        phase: phase,
                        state: StateView { first_night: false, ..st },
                    })
                    &&& !step.aborted ==> {
                        let handled = if na {
                            out.drop_last()
                        } else {
                            out
                        };
                        let m0 = MorningView { state: st, ballots: Map::empty() };
                        let m1 = morning_after(m0, t, packet.message);
                        &&& s1.session.phase == if adv {
                            next_phase(phase)
                        } else {
                            phase
                        }
                        &&& na ==> out.len() >= 1 && is_error(
                            out.last(),
                            "N_A_TO_STATE"@,
                            "This request is not applicable to this state."@,
                        )
                        &&& phase == EGamePhase::Selection ==> selection_outcome(
                            st,
                            *packet,
                            (adv, na),
                            s1.session.state,
                            handled,
                        )
                        &&& phase == EGamePhase::Morning ==> morning_outcome(
                            m0,
                            *packet,
                            (adv, na),
                            m1,
                            handled,
                        ) && s1.session.state == (StateView { first_night: false, ..m1.state })
                        &&& phase == EGamePhase::Special ==> special_outcome(
                            st,
                            *packet,
                            (adv, na),
                            s1.session.state,
                            handled,
                        )
                        &&& phase == EGamePhase::Mafia ==> mafia_outcome(
                            st,
                            *packet,
                            (adv, na),
                            s1.session.state,
                            handled,
                        )
                    }
                }
            }),
    {
        let mut outgoing: Vec<Outgoing> = Vec::new();
        if packet.request_type == RequestType::UNKNOWN {
            outgoing.push(Outgoing { request_type: RequestType::FAILURE, reply: Reply::Ack });
            return ServerStep { outgoing, aborted: false };
        }
        if packet.request_type == RequestType::HEARTBEAT {
            outgoing.push(Outgoing { request_type: RequestType::HEARTBEAT, reply: Reply::Ack });
            return ServerStep { outgoing, aborted: false };
        }
        if !self.has_started {
            if packet.request_type == RequestType::NEWGAME {
                outgoing.push(
                    Outgoing {
                        request_type: RequestType::NEWGAME,
                        reply: Reply::NewGame { uuid: self.uuid.clone(), has_started: self.has_started },
                    },
                );
                self.has_started = true;
            } else {
                outgoing.push(Self::not_applicable());
            }
            return ServerStep { outgoing, aborted: false };
        }
        let ghost st = self.session@.state;
        let mut phase = self.session.phase_start();
        let (response, mut replies) = match &mut phase {
            GamePhase::Selection(state) => phase_selection(state, packet),
            GamePhase::Morning(state) => {
                if packet.request_type == RequestType::VOTE {
                    let (sender, victim) = match &packet.message {
                        crate::packetphase::ClientMessage::Vote { sender, victim } => (
                            *sender,
                            *victim,
                        ),
                        _ => (0, 0),
                    };
                    match state.check_vote(sender as usize, victim as usize) {
                        Err(e) => {
                            outgoing.push(
                                Outgoing {
                                    request_type: RequestType::ERROR,
                                    reply: Reply::Error {
                                        error: "COULD_NOT_VOTE".to_owned(),
                                        details: e.to_owned(),
                                    },
                                },
                            );
                            self.session.phase_finish(phase);
                            return ServerStep { outgoing, aborted: true };
                        },
                        Ok(()) => {},
                    }
                }
                phase_morning(state, packet)
            },
            GamePhase::Special(state) => phase_special(state, packet),
            GamePhase::Mafia(state) => phase_mafia(state, packet),
        };
        self.session.phase_finish(phase);
        if response.should_advance() {
            self.session.phase_end();
        }
        outgoing.append(&mut replies);
        if response.not_applicable_state() {
            outgoing.push(Self::not_applicable());
        }
        ServerStep { outgoing, aborted: false }
    }
}

} // verus!

use vstd::prelude::*;
use crate::player::{Player, PlayerRole, PlayerView, role_name};
use crate::gamesession::{StateView, player_views, channels_for, channels_of};
use crate::channel::{EChannel, channel_number};
use crate::packet::RequestType;
use crate::selection::{SelectionState, role_pool, roles_of, same_but_roles};
use crate::morning::{MorningState, MorningView, pick_error, lynch_choice, after_lynch};
use crate::special::{SpecialState, detect_error};
use crate::mafia::MafiaState;
use crate::phase::EGamePhase;

verus! {

/// The fewest players that a game can start with.
pub const MIN_PLAYERS: usize = 8;

/// What a client's packet says, once its payload is read.
pub enum ClientMessage {
    NoMessage,
    AddPlayer { player_name: String },
    RemovePlayer { player_id: u32 },
    ChatChannels { player: u32 },
    Vote { sender: u32, victim: u32 },
    DetectiveInvestigate { sender: u32, target: u32 },
}

/// A client's request: the packet's kind and what its payload says.
pub struct Request {
    pub request_type: RequestType,
    pub message: ClientMessage,
}

/// What the server answers, before its payload is written out.
pub enum Reply {
    /// A payload of the single byte 1.
    Ack,
    NewGame { uuid: String, has_started: bool },
    AddPlayer { player_id: u32 },
    RemovePlayer { player_id: u32 },
    ChatChannels { channels: Vec<u32> },
    State { state: u32 },
    Roles { roles: Vec<String> },
    Vote { votes: u32, finished: bool, lynched: u32 },
    DetectiveInvestigate { target: u32, role: String },
    Error { error: String, details: String },
}

/// A packet that the server sends: its kind and its reply.
pub struct Outgoing {
    pub request_type: RequestType,
    pub reply: Reply,
}

/// What handling a request in a phase calls for.
pub struct PacketResponse {
    should_advance: bool,
    not_applicable_state: bool,
}

impl PacketResponse {
    pub closed spec fn advances(&self) -> bool {
        self.should_advance
    }

    pub closed spec fn not_applicable(&self) -> bool {
        self.not_applicable_state
    }

    /// Whether the game moves on to its next phase.
    pub fn should_advance(&self) -> (b: bool)
        ensures
            b == self.advances(),
    {
        self.should_advance
    }

    /// Whether the request does not apply to the phase.
    pub fn not_applicable_state(&self) -> (b: bool)
        ensures
            b == self.not_applicable(),
    {
        self.not_applicable_state
    }
}

/// The name that an add-player request carries (empty when it carries none).
pub open spec fn added_name(m: ClientMessage) -> Seq<char> {
    match m {
        ClientMessage::AddPlayer { player_name } => player_name@,
        _ => Seq::empty(),
    }
}

/// The player that a remove-player request names (zero where it names none).
pub open spec fn removed_id(m: ClientMessage) -> u32 {
    match m {
        ClientMessage::RemovePlayer { player_id } => player_id,
        _ => 0,
    }
}

/// The player whose chat channels are asked for (zero where none is named).
pub open spec fn chat_player(m: ClientMessage) -> u32 {
    match m {
        ClientMessage::ChatChannels { player } => player,
        _ => 0,
    }
}

/// The wire numbers of a sequence of channels.
pub open spec fn channel_numbers(cs: Seq<EChannel>) -> Seq<u32> {
    Seq::new(cs.len(), |i: int| channel_number(cs[i]))
}

/// `o` answers a chat-channels request carrying `msg` in phase `phase` of a
/// game with these players: the channels of the player named, or an error
/// when there is no such player.
pub open spec fn is_chat_reply(
    o: Outgoing,
    phase: EGamePhase,
    players: Seq<PlayerView>,
    msg: ClientMessage,
) -> bool {
    let p = chat_player(msg);
    if p < players.len() {
        &&& o.request_type == RequestType::CHATCHANNELS
        &&& o.reply matches Reply::ChatChannels { channels }
        &&& channels@ == channel_numbers(channels_for(phase, players[p as int]))
    } else {
        is_error(o, "COULD_NOT_PERFORM_ACTION"@, "Couldn't find player."@)
    }
}

/// The voter and the victim that a vote carries (zero where it carries none).
pub open spec fn vote_of(m: ClientMessage) -> (u32, u32) {
    match m {
        ClientMessage::Vote { sender, victim } => (sender, victim),
        _ => (0, 0),
    }
}

/// The detective and the subject of an investigation (zero where absent).
pub open spec fn investigation_of(m: ClientMessage) -> (u32, u32) {
    match m {
        ClientMessage::DetectiveInvestigate { sender, target } => (sender, target),
        _ => (0, 0),
    }
}

/// The number that a player's number becomes on the wire.
pub open spec fn wire_number(n: nat) -> u32 {
    (n % 0x1_0000_0000) as u32
}

/// How a lynching goes on the wire: the lynched player's number, or 255
/// when nobody was lynched.
pub open spec fn lynched_code(r: Option<usize>) -> u32 {
    match r {
        Some(p) => wire_number(p as nat),
        None => 255,
    }
}

/// `o` is a packet of kind `t` that carries `r`, a reply without text.
pub open spec fn is_plain(o: Outgoing, t: RequestType, r: Reply) -> bool {
    o.request_type == t && o.reply == r
}

/// `o` is an error packet with the given code and details.
pub open spec fn is_error(o: Outgoing, error: Seq<char>, details: Seq<char>) -> bool {
    &&& o.request_type == RequestType::ERROR
    &&& o.reply matches Reply::Error { error: e, details: d }
    &&& e@ == error
    &&& d@ == details
}

/// `o` is a roles packet naming the roles of `players`, in order.
pub open spec fn is_roles(o: Outgoing, players: Seq<crate::player::PlayerView>) -> bool {
    &&& o.request_type == RequestType::ROLES
    &&& o.reply matches Reply::Roles { roles }
    &&& string_views(roles@) == role_names(roles_of(players))
}

/// The texts of a sequence of strings.
pub open spec fn string_views(v: Seq<String>) -> Seq<Seq<char>> {
    Seq::new(v.len(), |i: int| v[i]@)
}

/// The names of a sequence of roles.
pub open spec fn role_names(rs: Seq<PlayerRole>) -> Seq<Seq<char>> {
    Seq::new(rs.len(), |i: int| role_name(rs[i]))
}

/// Whether handling a request of kind `t` advances the phase, and whether
/// it does not apply to the phase; `players` and `ballots` count the
/// seated players and the ballots already cast.
pub open spec fn response_of(phase: EGamePhase, players: nat, ballots: nat, t: RequestType) -> (
    bool,
    bool,
) {
    match phase {
        EGamePhase::Selection => match t {
            RequestType::ADDPLAYER | RequestType::REMOVEPLAYER | RequestType::STATE
            | RequestType::CHATCHANNELS => (false, false),
            RequestType::ADVANCE => (players >= MIN_PLAYERS, false),
            _ => (false, true),
        },
        EGamePhase::Morning => match t {
            RequestType::STATE | RequestType::CHATCHANNELS => (false, false),
            RequestType::ADVANCE => (true, false),
            RequestType::VOTE => (players == ballots + 1, false),
            _ => (false, true),
        },
        EGamePhase::Special => match t {
            RequestType::STATE | RequestType::DETECTIVEINVESTIGATE | RequestType::VOTE
            | RequestType::CHATCHANNELS => (false, false),
            RequestType::ADVANCE => (true, false),
            _ => (false, true),
        },
        EGamePhase::Mafia => match t {
            RequestType::VOTE | RequestType::STATE | RequestType::CHATCHANNELS => (false, false),
            RequestType::ADVANCE => (true, false),
            _ => (false, true),
        },
    }
}

/// The morning after `player`'s ballot for `victim` was cast.
pub open spec fn after_ballot(m: MorningView, player: usize, victim: usize) -> MorningView {
    MorningView { ballots: m.ballots.insert(player, Some(victim)), ..m }
}

/// The morning after a request of kind `t` carrying `msg` was handled.
pub open spec fn morning_after(m0: MorningView, t: RequestType, msg: ClientMessage) -> MorningView {
    match t {
        RequestType::ADVANCE => if m0.state.first_night {
            m0
        } else {
            after_lynch(m0)
        },
        RequestType::VOTE => {
            let m1 = after_ballot(m0, vote_of(msg).0 as usize, vote_of(msg).1 as usize);
            if m1.state.players.len() == m1.ballots.len() {
                after_lynch(m1)
            } else {
                m1
            }
        },
        _ => m0,
    }
}

/// What handling `req` in the selection phase does: it takes the game
/// from `s0` to `s1`, answers with `out`, and calls for `resp` (whether to
/// advance, whether the request does not apply).
pub open spec fn selection_outcome(
    s0: StateView,
    req: Request,
    resp: (bool, bool),
    s1: StateView,
    out: Seq<Outgoing>,
) -> bool {
    let t = req.request_type;
    &&& resp == response_of(EGamePhase::Selection, s0.players.len(), 0, t)
    &&& t == RequestType::ADDPLAYER ==> {
        &&& s1 == (StateView {
            players: s0.players.push(
                crate::player::PlayerView {
                    name: added_name(req.message),
                    role: PlayerRole::Unassigned,
                    is_ghost: false,
                },
            ),
            ..s0
        })
        &&& out.len() == 1
        &&& is_plain(
            out[0],
            RequestType::ADDPLAYER,
            Reply::AddPlayer { player_id: wire_number(s0.players.len()) },
        )
    }
    &&& t == RequestType::REMOVEPLAYER ==> {
        let id = removed_id(req.message);
        &&& out.len() == 1
        &&& id < s0.players.len() ==> s1 == (StateView {
            players: s0.players.update(id as int, s0.players.last()).drop_last(),
            ..s0
        }) && is_plain(out[0], RequestType::REMOVEPLAYER, Reply::RemovePlayer { player_id: id })
        &&& id >= s0.players.len() ==> s1 == s0 && is_error(
            out[0],
            "COULD_NOT_PERFORM_ACTION"@,
            "Player doesn't exist."@,
        )
    }
    &&& t == RequestType::STATE ==> s1 == s0 && out.len() == 1 && is_plain(
        out[0],
        RequestType::STATE,
        Reply::State { state: 0 },
    )
    &&& t == RequestType::CHATCHANNELS ==> s1 == s0 && out.len() == 1 && is_chat_reply(
        out[0],
        EGamePhase::Selection,
        s0.players,
        req.message,
    )
    &&& (t == RequestType::ADVANCE && s0.players.len() < MIN_PLAYERS) ==> {
        &&& s1 == s0
        &&& out.len() == 1
        &&& is_error(out[0], "NOT_ENOUGH_PLAYERS"@, "You need a minimum of 8 players."@)
    }
    &&& (t == RequestType::ADVANCE && s0.players.len() >= MIN_PLAYERS) ==> {
        &&& same_but_roles(s0.players, s1.players)
        &&& roles_of(s1.players).to_multiset() == role_pool(s0.players.len()).to_multiset()
        &&& s1.mafia_kill == s0.mafia_kill
        &&& s1.first_night == s0.first_night
        &&& out.len() == 1
        &&& is_roles(out[0], s1.players)
    }
    &&& response_of(EGamePhase::Selection, s0.players.len(), 0, t).1 ==> s1 == s0 && out.len()
        == 0
}

/// What handling `req` in a morning does: it takes the morning from `m0` to
/// `m1`, answers with `out`, and calls for `resp`.
pub open spec fn morning_outcome(
    m0: MorningView,
    req: Request,
    resp: (bool, bool),
    m1: MorningView,
    out: Seq<Outgoing>,
) -> bool {
    let t = req.request_type;
    &&& resp == response_of(EGamePhase::Morning, m0.state.players.len(), m0.ballots.len(), t)
    &&& m1 == morning_after(m0, t, req.message)
    &&& t == RequestType::STATE ==> out.len() == 1 && is_plain(
        out[0],
        RequestType::STATE,
        Reply::State { state: 1 },
    )
    &&& t == RequestType::CHATCHANNELS ==> out.len() == 1 && is_chat_reply(
        out[0],
        EGamePhase::Morning,
        m0.state.players,
        req.message,
    )
    &&& (t == RequestType::ADVANCE && m0.state.first_night) ==> out.len() == 0
    &&& (t == RequestType::ADVANCE && !m0.state.first_night) ==> {
        &&& out.len() == 1
        &&& is_plain(
            out[0],
            RequestType::VOTE,
            Reply::Vote { votes: 0, finished: false, lynched: lynched_code(lynch_choice(m0)) },
        )
    }
    &&& t == RequestType::VOTE ==> {
        let mb = after_ballot(m0, vote_of(req.message).0 as usize, vote_of(req.message).1 as usize);
        let finished = mb.state.players.len() == mb.ballots.len();
        &&& mb.ballots.len() == m0.ballots.len() + 1
        &&& out.len() == 1
        &&& is_plain(
            out[0],
            RequestType::VOTE,
            Reply::Vote {
                votes: wire_number(mb.ballots.len()),
                finished: finished,
                lynched: if finished {
                    lynched_code(lynch_choice(mb))
                } else {
                    0
                },
            },
        )
    }
    &&& response_of(EGamePhase::Morning, m0.state.players.len(), m0.ballots.len(), t).1
        ==> out.len() == 0
}

/// What handling `req` in the special phase does (see [`selection_outcome`]).
pub open spec fn special_outcome(
    s0: StateView,
    req: Request,
    resp: (bool, bool),
    s1: StateView,
    out: Seq<Outgoing>,
) -> bool {
    let t = req.request_type;
    let (sender, target) = investigation_of(req.message);
    &&& s1 == s0
    &&& resp == response_of(EGamePhase::Special, s0.players.len(), 0, t)
    &&& t == RequestType::STATE ==> out.len() == 1 && is_plain(
        out[0],
        RequestType::STATE,
        Reply::State { state: 2 },
    )
    &&& t == RequestType::CHATCHANNELS ==> out.len() == 1 && is_chat_reply(
        out[0],
        EGamePhase::Special,
        s0.players,
        req.message,
    )
    &&& (t == RequestType::VOTE || t == RequestType::ADVANCE) ==> out.len() == 0
    &&& t == RequestType::DETECTIVEINVESTIGATE ==> out.len() == 1 && match detect_error(
        s0,
        sender as usize,
        target as usize,
    ) {
        None => {
            &&& out[0].request_type == RequestType::DETECTIVEINVESTIGATE
            &&& out[0].reply matches Reply::DetectiveInvestigate { target: t2, role }
            &&& t2 == target
            &&& role@ == role_name(s0.players[target as int].role)
        },
        Some(e) => is_error(out[0], "COULD_NOT_PERFORM_ACTION"@, e),
    }
    &&& response_of(EGamePhase::Special, s0.players.len(), 0, t).1 ==> out.len() == 0
}

/// What handling `req` in the mafia phase does (see [`selection_outcome`]).
pub open spec fn mafia_outcome(
    s0: StateView,
    req: Request,
    resp: (bool, bool),
    s1: StateView,
    out: Seq<Outgoing>,
) -> bool {
    let t = req.request_type;
    &&& s1 == s0
    &&& resp == response_of(EGamePhase::Mafia, s0.players.len(), 0, t)
    &&& t == RequestType::STATE ==> out.len() == 1 && is_plain(
        out[0],
        RequestType::STATE,
        Reply::State { state: 3 },
    )
    &&& t == RequestType::CHATCHANNELS ==> out.len() == 1 && is_chat_reply(
        out[0],
        EGamePhase::Mafia,
        s0.players,
        req.message,
    )
    &&& (t != RequestType::STATE && t != RequestType::CHATCHANNELS) ==> out.len() == 0
}

fn state_reply(n: u32) -> (o: Outgoing)
    ensures
        is_plain(o, RequestType::STATE, Reply::State { state: n }),
{
    Outgoing { request_type: RequestType::STATE, reply: Reply::State { state: n } }
}

fn error_reply(error: &str, details: &str) -> (o: Outgoing)
    ensures
        is_error(o, error@, details@),
{
    Outgoing {
        request_type: RequestType::ERROR,
        reply: Reply::Error { error: error.to_owned(), details: details.to_owned() },
    }
}

/// Answers a chat-channels request from the players of a game in `phase`.
fn chat_channels_reply(phase: EGamePhase, players: &Vec<Player>, msg: &ClientMessage) -> (o:
    Outgoing)
    ensures
        is_chat_reply(o, phase, player_views(players@), *msg),
{
    let p = match msg {
        ClientMessage::ChatChannels { player } => *player,
        _ => 0,
    };
    if (p as usize) < players.len() {
        let channels = channels_of(phase, &players[p as usize]);
        let mut numbers: Vec<u32> = Vec::new();
        let mut i: usize = 0;
        while i < channels.len()
            invariant
                i <= channels@.len(),
                numbers@ == channel_numbers(channels@).take(i as int),
            decreases channels@.len() - i,
        {
            numbers.push(channels[i].number());
            assert(numbers@ =~= channel_numbers(channels@).take(i + 1));
            i += 1;
        }
        assert(channel_numbers(channels@).take(channels@.len() as int) =~= channel_numbers(
            channels@,
        ));
        Outgoing {
            request_type: RequestType::CHATCHANNELS,
            reply: Reply::ChatChannels { channels: numbers },
        }
    } else {
        error_reply("COULD_NOT_PERFORM_ACTION", "Couldn't find player.")
    }
}

fn to_wire(n: usize) -> (w: u32)
    ensures
        w == wire_number(n as nat),
{
    ((n as u64) % 0x1_0000_0000) as u32
}

fn lynch_to_wire(r: Option<usize>) -> (w: u32)
    ensures
        w == lynched_code(r),
{
    match r {
        Some(p) => to_wire(p),
        None => 255,
    }
}

/// Handles a request in the selection phase: players join, and an advance
/// with enough players deals the roles.
pub fn phase_selection(state: &mut SelectionState, packet: &Request) -> (res: (
    PacketResponse,
    Vec<Outgoing>,
))
    ensures
        selection_outcome(
            old(state)@,
            *packet,
            (res.0.advances(), res.0.not_applicable()),
            final(state)@,
            res.1@,
        ),
{
    let mut out: Vec<Outgoing> = Vec::new();
    match packet.request_type {
        RequestType::ADDPLAYER => {
            let name = match &packet.message {
                ClientMessage::AddPlayer { player_name } => player_name.clone(),
                _ => String::new(),
            };
            let p_id = state.add_player(name);
            out.push(
                Outgoing {
                    request_type: RequestType::ADDPLAYER,
                    reply: Reply::AddPlayer { player_id: to_wire(p_id) },
                },
            );
            (PacketResponse { should_advance: false, not_applicable_state: false }, out)
        },
        RequestType::REMOVEPLAYER => {
            let id = match &packet.message {
                ClientMessage::RemovePlayer { player_id } => *player_id,
                _ => 0,
            };
            if (id as usize) < state.get_player_count() {
                state.drop_player(id as usize);
                out.push(
                    Outgoing {
                        request_type: RequestType::REMOVEPLAYER,
                        reply: Reply::RemovePlayer { player_id: id },
                    },
                );
            } else {
                out.push(error_reply("COULD_NOT_PERFORM_ACTION", "Player doesn't exist."));
            }
            (PacketResponse { should_advance: false, not_applicable_state: false }, out)
        },
        RequestType::STATE => {
            out.push(state_reply(0));
            (PacketResponse { should_advance: false, not_applicable_state: false }, out)
        },
        RequestType::CHATCHANNELS => {
            out.push(chat_channels_reply(EGamePhase::Selection, state.players(), &packet.message));
            (PacketResponse { should_advance: false, not_applicable_state: false }, out)
        },
        RequestType::ADVANCE => {
            if state.get_player_count() < MIN_PLAYERS {
                out.push(error_reply("NOT_ENOUGH_PLAYERS", "You need a minimum of 8 players."));
            } else {
                state.assign_roles();
                let n = state.get_player_count();
                let mut roles: Vec<String> = Vec::new();
                let mut i: usize = 0;
                while i < n
                    invariant
                        i <= n,
                        n == state@.players.len(),
                        roles@.len() == i,
                        forall|j: int| 0 <= j < i ==> #[trigger] roles@[j]@ == role_name(
                            state@.players[j].role,
                        ),
                    decreases n - i,
                {
                    let role = state.get_player_role(i);
                    roles.push(role.to_string());
                    i += 1;
                }
                assert(string_views(roles@) =~= role_names(roles_of(state@.players)));
                out.push(
                    Outgoing { request_type: RequestType::ROLES, reply: Reply::Roles { roles } },
                );
                return (PacketResponse { should_advance: true, not_applicable_state: false }, out);
            }
            (PacketResponse { should_advance: false, not_applicable_state: false }, out)
        },
        _ => (PacketResponse { should_advance: false, not_applicable_state: true }, out),
    }
}

/// Handles a request in the morning: votes, and an advance that forces the
/// lynching.
pub fn phase_morning(state: &mut MorningState, packet: &Request) -> (res: (
    PacketResponse,
    Vec<Outgoing>,
))
    requires
        packet.request_type == RequestType::VOTE ==> pick_error(
            old(state)@,
            vote_of(packet.message).0 as usize,
            vote_of(packet.message).1 as usize,
        ) is None,
    ensures
        morning_outcome(
            old(state)@,
            *packet,
            (res.0.advances(), res.0.not_applicable()),
            final(state)@,
            res.1@,
        ),
{
    let mut out: Vec<Outgoing> = Vec::new();
    match packet.request_type {
        RequestType::STATE => {
            out.push(state_reply(1));
            (PacketResponse { should_advance: false, not_applicable_state: false }, out)
        },
        RequestType::CHATCHANNELS => {
            out.push(chat_channels_reply(EGamePhase::Morning, state.players(), &packet.message));
            (PacketResponse { should_advance: false, not_applicable_state: false }, out)
        },
        RequestType::ADVANCE => {
            if state.can_anyone_vote() {
                let target = state.lynch_target();
                out.push(
                    Outgoing {
                        request_type: RequestType::VOTE,
                        reply: Reply::Vote {
                            votes: 0,
                            finished: false,
                            lynched: lynch_to_wire(target),
                        },
                    },
                );
            }
            (PacketResponse { should_advance: true, not_applicable_state: false }, out)
        },
        RequestType::VOTE => {
            let (sender, victim) = match &packet.message {
                ClientMessage::Vote { sender, victim } => (*sender, *victim),
                _ => (0, 0),
            };
            let votes = match state.pick_target(sender as usize, victim as usize) {
                Ok(k) => k,
                Err(_) => 0,
            };
            let finished = state.counted_all_votes();
            let mut lynched: u32 = 0;
            if finished {
                let target = state.lynch_target();
                lynched = lynch_to_wire(target);
            }
            out.push(
                Outgoing {
                    request_type: RequestType::VOTE,
                    reply: Reply::Vote { votes: to_wire(votes), finished, lynched },
                },
            );
            (PacketResponse { should_advance: finished, not_applicable_state: false }, out)
        },
        _ => (PacketResponse { should_advance: false, not_applicable_state: true }, out),
    }
}

/// Handles a request in the special phase: the detective investigates.
pub fn phase_special(state: &mut SpecialState, packet: &Request) -> (res: (
    PacketResponse,
    Vec<Outgoing>,
))
    ensures
        special_outcome(
            old(state)@,
            *packet,
            (res.0.advances(), res.0.not_applicable()),
            final(state)@,
            res.1@,
        ),
{
    let mut out: Vec<Outgoing> = Vec::new();
    match packet.request_type {
        RequestType::STATE => {
            out.push(state_reply(2));
            (PacketResponse { should_advance: false, not_applicable_state: false }, out)
        },
        RequestType::CHATCHANNELS => {
            out.push(chat_channels_reply(EGamePhase::Special, state.players(), &packet.message));
            (PacketResponse { should_advance: false, not_applicable_state: false }, out)
        },
        RequestType::VOTE => (PacketResponse { should_advance: false, not_applicable_state: false }, out),
        RequestType::ADVANCE => (PacketResponse { should_advance: true, not_applicable_state: false }, out),
        RequestType::DETECTIVEINVESTIGATE => {
            let (sender, target) = match &packet.message {
                ClientMessage::DetectiveInvestigate { sender, target } => (*sender, *target),
                _ => (0, 0),
            };
            match state.detective_detect_role(sender as usize, target as usize) {
                Ok(role) => {
                    out.push(
                        Outgoing {
                            request_type: RequestType::DETECTIVEINVESTIGATE,
                            reply: Reply::DetectiveInvestigate {
                                target: target,
                                role: role.to_string(),
                            },
                        },
                    );
                },
                Err(e) => {
                    out.push(error_reply("COULD_NOT_PERFORM_ACTION", e));
                },
            }
            (PacketResponse { should_advance: false, not_applicable_state: false }, out)
        },
        _ => (PacketResponse { should_advance: false, not_applicable_state: true }, out),
    }
}

/// Handles a request in the mafia phase: votes are read and left unused.
pub fn phase_mafia(state: &mut MafiaState, packet: &Request) -> (res: (
    PacketResponse,
    Vec<Outgoing>,
))
    ensures
        mafia_outcome(
            old(state)@,
            *packet,
            (res.0.advances(), res.0.not_applicable()),
            final(state)@,
            res.1@,
        ),
{
    let mut out: Vec<Outgoing> = Vec::new();
    match packet.request_type {
        RequestType::VOTE => (PacketResponse { should_advance: false, not_applicable_state: false }, out),
        RequestType::STATE => {
            out.push(state_reply(3));
            (PacketResponse { should_advance: false, not_applicable_state: false }, out)
        },
        RequestType::CHATCHANNELS => {
            out.push(chat_channels_reply(EGamePhase::Mafia, state.players(), &packet.message));
            (PacketResponse { should_advance: false, not_applicable_state: false }, out)
        },
        RequestType::ADVANCE => (PacketResponse { should_advance: true, not_applicable_state: false }, out),
        _ => (PacketResponse { should_advance: false, not_applicable_state: true }, out),
    }
}

} // verus!

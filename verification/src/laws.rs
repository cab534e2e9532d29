use vstd::prelude::*;
use crate::player::{PlayerRole, PlayerView, PlayerOp, after_op};
use crate::gamesession::{StateView, channels_for};
use crate::channel::EChannel;
use crate::phase::{EGamePhase, GamePhase, next_phase, inner_state, finished_state};
use crate::morning::{
    MorningView, may_vote, votes_for, leader_upto, lynch_choice, after_lynch, lemma_leader,
    alive_mafia, alive_others, winner,
};
use crate::selection::{role_pool, role_for_slot};
use crate::packetphase::response_of;
use crate::packet::{
    RequestType, header_bytes, header_error, type_of_byte, type_byte, announced_length,
};

verus! {

/// Once the game has left its selection phase it never returns there, and
/// from then on the phases come round every three steps.
pub proof fn lemma_phase_cycle(p: EGamePhase)
    ensures
        next_phase(p) != EGamePhase::Selection,
        p != EGamePhase::Selection ==> next_phase(next_phase(next_phase(p))) == p,
{
}

/// The phase that `k` moves on from `p` lead to.
pub open spec fn phase_after(p: EGamePhase, k: nat) -> EGamePhase
    decreases k,
{
    if k == 0 {
        p
    } else {
        next_phase(phase_after(p, (k - 1) as nat))
    }
}

/// A new game, moved on `k >= 1` times, is in the morning when `k % 3 == 1`,
/// in the special phase when `k % 3 == 2`, and in the mafia phase when
/// `k % 3 == 0`: never back in selection.
pub proof fn lemma_phase_after(k: nat)
    requires
        k >= 1,
    ensures
        phase_after(EGamePhase::Selection, k) == if k % 3 == 1 {
            EGamePhase::Morning
        } else if k % 3 == 2 {
            EGamePhase::Special
        } else {
            EGamePhase::Mafia
        },
    decreases k,
{
    let j = (k - 1) as nat;
    if k == 1 {
        assert(phase_after(EGamePhase::Selection, j) == EGamePhase::Selection);
    } else {
        lemma_phase_after(j);
        assert(k % 3 == (j % 3 + 1) % 3);
    }
    assert(phase_after(EGamePhase::Selection, k) == next_phase(
        phase_after(EGamePhase::Selection, j),
    ));
}

/// A request that does not apply to a phase never advances it.
pub proof fn lemma_not_applicable_never_advances(
    phase: EGamePhase,
    players: nat,
    ballots: nat,
    t: RequestType,
)
    ensures
        !(response_of(phase, players, ballots, t).0 && response_of(phase, players, ballots, t).1),
{
}

/// The player after a sequence of actions, first to last.
pub open spec fn after_ops(p: PlayerView, ops: Seq<PlayerOp>) -> PlayerView
    decreases ops.len(),
{
    if ops.len() == 0 {
        p
    } else {
        after_op(after_ops(p, ops.drop_last()), ops.last())
    }
}

/// A new player is a ghost exactly when they have been killed: nothing
/// brings a player back, and only a kill makes a ghost. Their name stays.
pub proof fn lemma_ghost_iff_killed(name: Seq<char>, ops: Seq<PlayerOp>)
    ensures
        after_ops(PlayerView { name: name, role: PlayerRole::Unassigned, is_ghost: false }, ops).is_ghost
            == ops.contains(PlayerOp::Kill),
        after_ops(PlayerView { name: name, role: PlayerRole::Unassigned, is_ghost: false }, ops).name
            == name,
    decreases ops.len(),
{
    if ops.len() > 0 {
        let rest = ops.drop_last();
        lemma_ghost_iff_killed(name, rest);
        assert(ops =~= rest.push(ops.last()));
        if ops.last() == PlayerOp::Kill {
            assert(ops.contains(PlayerOp::Kill)) by {
                assert(ops[ops.len() - 1] == PlayerOp::Kill);
            }
        } else if rest.contains(PlayerOp::Kill) {
            let i = choose|i: int| 0 <= i < rest.len() && rest[i] == PlayerOp::Kill;
            assert(ops[i] == PlayerOp::Kill);
        } else {
            assert forall|i: int| 0 <= i < ops.len() implies ops[i] != PlayerOp::Kill by {
                if i < rest.len() {
                    assert(rest[i] == ops[i]);
                }
            }
        }
    }
}

/// A player casts at most one ballot a morning: once their ballot is in,
/// whether a pick or an abstention, they may not vote again.
pub proof fn lemma_one_ballot_per_player(m: MorningView, player: usize, choice: Option<usize>)
    ensures
        !may_vote(MorningView { ballots: m.ballots.insert(player, choice), ..m }, player),
{
}

/// Nobody may vote before the first night is over.
pub proof fn lemma_no_votes_first_morning(m: MorningView, player: usize)
    requires
        m.state.first_night,
    ensures
        !may_vote(m, player),
{
}

/// The lynched player is the first of those with the most votes, and at
/// least two fifths of the ballots picked them.
pub proof fn lemma_lynch_is_plurality(m: MorningView)
    requires
        m.state.players.len() <= usize::MAX,
    ensures
        lynch_choice(m) matches Some(p) ==> {
            let n = m.state.players.len();
            &&& p < n
            &&& votes_for(m.ballots, p, n) > 0
            &&& 5 * votes_for(m.ballots, p, n) >= 2 * m.ballots.len()
            &&& forall|q: usize| #![trigger votes_for(m.ballots, q, n)]
                q < n ==> votes_for(m.ballots, q, n) <= votes_for(m.ballots, p, n)
            &&& forall|q: usize| #![trigger votes_for(m.ballots, q, n)]
                q < p ==> votes_for(m.ballots, q, n) < votes_for(m.ballots, p, n)
        },
{
    let n = m.state.players.len();
    if n > 0 {
        lemma_leader(m.ballots, n, n);
    }
}

/// The first of those with the most votes is lynched whenever they were
/// picked at all and by at least two fifths of the ballots, whatever their
/// role: they become a ghost.
pub proof fn lemma_plurality_is_lynched(m: MorningView, l: usize)
    requires
        m.state.players.len() <= usize::MAX,
        l < m.state.players.len(),
        votes_for(m.ballots, l, m.state.players.len()) > 0,
        5 * votes_for(m.ballots, l, m.state.players.len()) >= 2 * m.ballots.len(),
        forall|q: usize| #![trigger votes_for(m.ballots, q, m.state.players.len())]
            q < m.state.players.len() ==> votes_for(m.ballots, q, m.state.players.len())
                <= votes_for(m.ballots, l, m.state.players.len()),
        forall|q: usize| #![trigger votes_for(m.ballots, q, m.state.players.len())]
            q < l ==> votes_for(m.ballots, q, m.state.players.len()) < votes_for(
                m.ballots,
                l,
                m.state.players.len(),
            ),
    ensures
        lynch_choice(m) == Some(l),
        after_lynch(m).state.players[l as int].is_ghost,
        after_lynch(m).state.players[l as int].role == m.state.players[l as int].role,
{
    let n = m.state.players.len();
    lemma_leader(m.ballots, n, n);
    let top = leader_upto(m.ballots, n, n);
    assert(votes_for(m.ballots, top, n) <= votes_for(m.ballots, l, n));
    assert(votes_for(m.ballots, l, n) <= votes_for(m.ballots, top, n));
    assert(top == l);
}

proof fn lemma_no_votes_for(ballots: Map<usize, Option<usize>>, victim: usize, upto: nat)
    requires
        ballots == Map::<usize, Option<usize>>::empty(),
    ensures
        votes_for(ballots, victim, upto) == 0,
    decreases upto,
{
    if upto > 0 {
        lemma_no_votes_for(ballots, victim, (upto - 1) as nat);
    }
}

/// A lynching kills at most one player and brings nobody back: names and
/// roles stay, ghosts stay ghosts, and only the lynched player dies.
pub proof fn lemma_ghosts_stay(m: MorningView)
    requires
        m.state.players.len() <= usize::MAX,
    ensures
        after_lynch(m).state.players.len() == m.state.players.len(),
        after_lynch(m).ballots == m.ballots,
        forall|i: int|
            0 <= i < m.state.players.len() ==> {
                let before = m.state.players[i];
                let after = #[trigger] after_lynch(m).state.players[i];
                &&& after.name == before.name
                &&& after.role == before.role
                &&& before.is_ghost ==> after.is_ghost
                &&& (!before.is_ghost && after.is_ghost) ==> lynch_choice(m) == Some(i as usize)
            },
{
    let n = m.state.players.len();
    if n > 0 {
        lemma_leader(m.ballots, n, n);
    }
}

/// Without ballots nobody is lynched.
pub proof fn lemma_no_ballots_no_lynch(m: MorningView)
    requires
        m.ballots == Map::<usize, Option<usize>>::empty(),
    ensures
        lynch_choice(m) is None,
{
    let n = m.state.players.len();
    if n > 0 {
        lemma_no_votes_for(m.ballots, leader_upto(m.ballots, n, n), n);
    }
}

/// The number of players of role `r` that a game of `n` players is dealt:
/// one detective in every nine seats, one mafioso in every four seats
/// that are not a detective's, and civilians in the other seats.
pub open spec fn dealt(n: nat, r: PlayerRole) -> nat {
    match r {
        PlayerRole::Detective => n / 9,
        PlayerRole::Mafia => (n / 4 - n / 36) as nat,
        PlayerRole::Civilian => (n - n / 9 - (n / 4 - n / 36)) as nat,
        PlayerRole::Unassigned => 0,
    }
}

proof fn lemma_step_4(n: nat)
    ensures
        (n + 1) / 4 == n / 4 + if (n + 1) % 4 == 0 {
            1nat
        } else {
            0nat
        },
{
}

proof fn lemma_step_9(n: nat)
    ensures
        (n + 1) / 9 == n / 9 + if (n + 1) % 9 == 0 {
            1nat
        } else {
            0nat
        },
{
}

proof fn lemma_step_36(n: nat)
    ensures
        (n + 1) / 36 == n / 36 + if (n + 1) % 36 == 0 {
            1nat
        } else {
            0nat
        },
{
}

proof fn lemma_multiple_of_36(m: nat)
    ensures
        (m % 36 == 0) == (m % 9 == 0 && m % 4 == 0),
{
    let q = m / 36;
    let r = m % 36;
    assert(m == 36 * q + r);
    assert(m % 9 == r % 9) by {
        assert(m == 9 * (4 * q) + r);
    }
    assert(m % 4 == r % 4) by {
        assert(m == 4 * (9 * q) + r);
    }
    assert(r % 9 == 0 && r % 4 == 0 ==> r == 0);
}

proof fn lemma_slot_step(n: nat)
    ensures
        (n + 1) / 9 == n / 9 + if (n + 1) % 9 == 0 {
            1nat
        } else {
            0nat
        },
        (n + 1) / 4 == n / 4 + if (n + 1) % 4 == 0 {
            1nat
        } else {
            0nat
        },
        (n + 1) / 36 == n / 36 + if (n + 1) % 36 == 0 {
            1nat
        } else {
            0nat
        },
        ((n + 1) % 36 == 0) == ((n + 1) % 9 == 0 && (n + 1) % 4 == 0),
        n / 36 <= n / 4,
        n / 9 + (n / 4 - n / 36) <= n,
{
    lemma_step_4(n);
    lemma_step_9(n);
    lemma_step_36(n);
    lemma_multiple_of_36(n + 1);
}

/// The roles dealt to a game of `n` players, counted by role (see
/// [`dealt`]); a game of thirteen has nine civilians, three mafiosi and
/// one detective.
pub proof fn lemma_role_pool_counts(n: nat)
    ensures
        role_pool(n).to_multiset().count(PlayerRole::Detective) == dealt(n, PlayerRole::Detective),
        role_pool(n).to_multiset().count(PlayerRole::Mafia) == dealt(n, PlayerRole::Mafia),
        role_pool(n).to_multiset().count(PlayerRole::Civilian) == dealt(n, PlayerRole::Civilian),
        role_pool(n).to_multiset().count(PlayerRole::Unassigned) == 0,
    decreases n,
{
    broadcast use vstd::seq_lib::group_to_multiset_ensures;
    broadcast use vstd::multiset::group_multiset_axioms;

    if n == 0 {
        assert(role_pool(0) =~= Seq::<PlayerRole>::empty());
    } else {
        let k = (n - 1) as nat;
        lemma_role_pool_counts(k);
        lemma_slot_step(k);
        assert(role_pool(n) =~= role_pool(k).push(role_for_slot(n)));
    }
}

/// The framing of a packet reads back: its header passes the checks, its
/// kind comes back, and so does the payload's length, modulo 2^32.
pub proof fn lemma_header_round_trip(t: RequestType, len: u64)
    ensures
        header_error(header_bytes(t, len as nat)) is None,
        type_of_byte(header_bytes(t, len as nat)[5]) == t,
        announced_length(header_bytes(t, len as nat)) == len as nat % 0x1_0000_0000,
{
    let h = header_bytes(t, len as nat);
    assert(h[6] == (len / 0x1000000) % 256);
    assert(h[7] == (len / 0x10000) % 256);
    assert(h[8] == (len / 0x100) % 256);
    assert(h[9] == len % 256);
    assert(((len / 0x1000000) % 256) * 0x1000000 + ((len / 0x10000) % 256) * 0x10000 + ((len
        / 0x100) % 256) * 0x100 + len % 256 == len % 0x1_0000_0000) by (bit_vector);
}

/// Ending a phase hands back the state that starting it took along; a
/// morning also ends the first night.
pub proof fn lemma_finish_undoes_start(g: GamePhase)
    ensures
        g !is Morning ==> finished_state(g) == inner_state(g),
        g is Morning ==> finished_state(g) == (StateView { first_night: false, ..inner_state(g) }),
{
}

/// Dropping the player who was just added gives back the players as they
/// were.
pub proof fn lemma_drop_undoes_add(players: Seq<PlayerView>, p: PlayerView)
    ensures
        ({
            let added = players.push(p);
            added.update(players.len() as int, added.last()).drop_last() == players
        }),
{
    let added = players.push(p);
    assert(added.update(players.len() as int, added.last()).drop_last() =~= players);
}

/// Every player chats on exactly one channel, and a ghost only on the
/// ghosts' channel.
pub proof fn lemma_one_channel(phase: EGamePhase, p: PlayerView)
    ensures
        channels_for(phase, p).len() == 1,
        p.is_ghost ==> channels_for(phase, p)[0] == EChannel::Ghosts,
        !p.is_ghost ==> channels_for(phase, p)[0] != EChannel::Ghosts,
{
}

/// Whether a player is alive.
pub open spec fn is_alive(p: PlayerView) -> bool {
    !p.is_ghost
}

/// Whether a player is a living mafioso.
pub open spec fn is_living_mafioso(p: PlayerView) -> bool {
    !p.is_ghost && p.role == PlayerRole::Mafia
}

/// The living players, in seat order.
pub open spec fn living(players: Seq<PlayerView>) -> Seq<PlayerView> {
    players.filter(|p: PlayerView| is_alive(p))
}

/// The living mafiosi, in seat order.
pub open spec fn living_mafiosi(players: Seq<PlayerView>) -> Seq<PlayerView> {
    players.filter(|p: PlayerView| is_living_mafioso(p))
}

/// The teams split the living players: every living player is a mafioso or
/// one of the others, a detective as much as a civilian. So the town has
/// won when no mafioso lives, and the mafia when the mafiosi are more than
/// half of the living.
pub proof fn lemma_teams_split_the_living(players: Seq<PlayerView>)
    ensures
        alive_mafia(players) == living_mafiosi(players).len(),
        alive_mafia(players) + alive_others(players) == living(players).len(),
        winner(players) == if living_mafiosi(players).len() == 0 {
            PlayerRole::Civilian
        } else if 2 * living_mafiosi(players).len() > living(players).len() {
            PlayerRole::Mafia
        } else {
            PlayerRole::Unassigned
        },
    decreases players.len(),
{
    reveal(Seq::filter);
    if players.len() > 0 {
        lemma_teams_split_the_living(players.drop_last());
    }
}

/// The wire bytes of the request types, as the protocol documents them:
/// heartbeat 0, new game 1, add player 2, remove player 3, advance 4,
/// state 5, roles 6, vote 7, chat channels 8, detective investigate 9,
/// failure (an unknown request) 200, error 201; any other byte reads as
/// an unknown request.
pub proof fn lemma_wire_bytes(b: u8)
    ensures
        type_byte(RequestType::HEARTBEAT) == 0,
        type_byte(RequestType::NEWGAME) == 1,
        type_byte(RequestType::ADDPLAYER) == 2,
        type_byte(RequestType::REMOVEPLAYER) == 3,
        type_byte(RequestType::ADVANCE) == 4,
        type_byte(RequestType::STATE) == 5,
        type_byte(RequestType::ROLES) == 6,
        type_byte(RequestType::VOTE) == 7,
        type_byte(RequestType::CHATCHANNELS) == 8,
        type_byte(RequestType::DETECTIVEINVESTIGATE) == 9,
        type_byte(RequestType::FAILURE) == 200,
        type_byte(RequestType::ERROR) == 201,
        type_byte(RequestType::UNKNOWN) == 255,
        (b <= 9 || b == 200 || b == 201) ==> type_byte(type_of_byte(b)) == b,
        !(b <= 9 || b == 200 || b == 201) ==> type_of_byte(b) == RequestType::UNKNOWN,
        forall|t: RequestType| #[trigger] type_of_byte(type_byte(t)) == t,
{
}

/// Who may enter which chat: ghosts chat among ghosts; the living all
/// chat on the global channel in the selection and the morning; at night
/// only a detective gets the detective's channel (in the special phase)
/// and only a mafioso the mafia's (in the mafia phase); everyone else
/// gets no channel.
pub proof fn lemma_who_chats_where(phase: EGamePhase, p: PlayerView)
    ensures
        channels_for(phase, p).contains(EChannel::Ghosts) <==> p.is_ghost,
        channels_for(phase, p).contains(EChannel::Global) <==> !p.is_ghost && (phase
            == EGamePhase::Selection || phase == EGamePhase::Morning),
        channels_for(phase, p).contains(EChannel::Detective) <==> !p.is_ghost && phase
            == EGamePhase::Special && p.role == PlayerRole::Detective,
        channels_for(phase, p).contains(EChannel::Mafia) <==> !p.is_ghost && phase
            == EGamePhase::Mafia && p.role == PlayerRole::Mafia,
        channels_for(phase, p).contains(EChannel::NoChannel) <==> !p.is_ghost && ((phase
            == EGamePhase::Special && p.role != PlayerRole::Detective) || (phase
            == EGamePhase::Mafia && p.role != PlayerRole::Mafia)),
{
    let c = channels_for(phase, p);
    assert(c.len() == 1);
    assert forall|e: EChannel| c.contains(e) <==> c[0] == e by {
        if c[0] == e {
            assert(c.contains(e));
        }
    }
}

} // verus!

//! Rules of a game of murder (mafia): players, roles, the phases of a day,
//! the wire framing of the game server and the decisions of its clients.

mod player;
mod channel;
mod gamesession;
mod phase;
mod rng;
mod selection;
mod morning;
mod special;
mod mafia;
mod ai;
mod packet;
mod packetphase;
mod payload;
mod message;
mod server;
mod client;
mod laws;

pub use player::{Player, PlayerRole, PlayerView, PlayerOp, after_op, role_name};
pub use channel::{EChannel, EChannelMsgAction, ChannelMsg, channel_number};
pub use gamesession::{
    InternalState, StateView, GameSession, SessionView, player_views, channels_for, empty_state,
    channels_of,
};
pub use phase::{EGamePhase, GamePhase, next_phase, finished_state, phase_kind, inner_state};
pub use selection::{SelectionState, role_for_slot, role_pool, roles_of, same_but_roles, roles_for};
pub use morning::{
    MorningState, MorningView, ballots_wf, after_lynch, may_vote, pick_error, votes_for, leader_upto,
    lynch_choice, alive_mafia, alive_others, winner,
};
pub use special::{SpecialState, detect_error};
pub use mafia::{MafiaState, may_kill};
pub use ai::{AiTrait, AiCivilian, AiDumb, AiMafia};
pub use packet::{
    RequestType, MurderPacket, encode_packet, check_header, decode_header, type_byte,
    type_of_byte, length_bytes, header_bytes, magic_ok, header_error, announced_length,
    HEADER_SIZE, MAGIC_BYTE_B1, MAGIC_BYTE_B2, MAGIC_BYTE_B3, MAGIC_BYTE_B4, SERVER_VERSION,
};
pub use packetphase::{
    ClientMessage, Request, Reply, Outgoing, PacketResponse, phase_selection, phase_morning,
    phase_special, phase_mafia, added_name, vote_of, investigation_of, wire_number, lynched_code,
    is_plain, is_error, is_roles, is_chat_reply, removed_id, chat_player, channel_numbers, response_of, after_ballot, morning_after, selection_outcome,
    morning_outcome, special_outcome, mafia_outcome, string_views, role_names, MIN_PLAYERS,
};
pub use payload::{
    get_error, encode_reply, reply_bytes, varint, field_key, uint32_field, bool_field,
    string_field, strings_field, uint32s_field, uint32_opt, bool_opt, string_opt, FIELD_NUMBER_MAX,
};
pub use message::{PayloadFields, string_of, uint_of, is_message_of, message_of};
pub use server::{
    GameServer, ServerView, ServerStep, is_lower_hex, is_new_game, vote_refused, refusal,
    carries_message, payload_read,
};
pub use client::{AiPlayer, PhaseReport, LocalGame, ai_for_role, ai_fits, CLIENT_PLAYERS};
pub use laws::{
    lemma_phase_cycle, phase_after, lemma_phase_after, lemma_not_applicable_never_advances,
    after_ops, lemma_ghost_iff_killed, lemma_one_ballot_per_player, lemma_no_votes_first_morning,
    lemma_lynch_is_plurality, lemma_ghosts_stay, lemma_no_ballots_no_lynch, dealt, lemma_role_pool_counts,
    lemma_header_round_trip, lemma_finish_undoes_start, lemma_drop_undoes_add, lemma_one_channel,
    lemma_plurality_is_lynched, is_alive, is_living_mafioso, living, living_mafiosi,
    lemma_teams_split_the_living, lemma_wire_bytes, lemma_who_chats_where,
};

use murder::{
    check_header, decode_header, encode_packet, encode_reply, get_error, ClientMessage, GameServer, MafiaState,
    MorningState, InternalState, Outgoing, Player, PlayerRole, Reply, Request, RequestType,
    SelectionState, SpecialState, phase_mafia, phase_morning, phase_selection, phase_special,
    HEADER_SIZE, PayloadFields, message_of,
};

fn player(name: &str, role: PlayerRole) -> Player {
    let mut p = Player::new(name.to_string());
    p.assign_role(role);
    p
}

fn req(t: RequestType, message: ClientMessage) -> Request {
    Request { request_type: t, message }
}

fn bare(t: RequestType) -> Request {
    req(t, ClientMessage::NoMessage)
}

fn error_of(o: &Outgoing) -> (String, String) {
    assert_eq!(o.request_type, RequestType::ERROR);
    match &o.reply {
        Reply::Error { error, details } => (error.clone(), details.clone()),
        _ => panic!("not an error"),
    }
}

#[test]
fn encode_packet_layout() {
    let buf = encode_packet(RequestType::VOTE, vec![9, 8, 7]);
    assert_eq!(buf, vec![0x25, 0xC9, 0xC3, 0x5F, 0x00, 7, 0, 0, 0, 3, 9, 8, 7]);
    let big = vec![0u8; 65000];
    let buf = encode_packet(RequestType::HEARTBEAT, big);
    assert_eq!(&buf[..HEADER_SIZE], &[0x25, 0xC9, 0xC3, 0x5F, 0x00, 0, 0x00, 0x00, 0xFD, 0xE8]);
    assert_eq!(buf.len(), 65010);
}

#[test]
fn request_type_bytes() {
    let all = [
        RequestType::HEARTBEAT,
        RequestType::NEWGAME,
        RequestType::ADDPLAYER,
        RequestType::REMOVEPLAYER,
        RequestType::ADVANCE,
        RequestType::STATE,
        RequestType::ROLES,
        RequestType::VOTE,
        RequestType::CHATCHANNELS,
        RequestType::DETECTIVEINVESTIGATE,
        RequestType::FAILURE,
        RequestType::ERROR,
        RequestType::UNKNOWN,
    ];
    for t in all.iter() {
        assert_eq!(RequestType::from_byte(t.to_byte()), *t);
    }
    assert_eq!(RequestType::ERROR.to_byte(), 201);
    assert_eq!(RequestType::from_byte(201), RequestType::ERROR);
    assert_eq!(RequestType::from_byte(3), RequestType::REMOVEPLAYER);
    assert_eq!(RequestType::from_byte(10), RequestType::UNKNOWN);
    assert_eq!(RequestType::from_byte(199), RequestType::UNKNOWN);
    assert_eq!(RequestType::UNKNOWN.to_byte(), 255);
}

#[test]
fn header_round_trip() {
    let buf = encode_packet(RequestType::ADDPLAYER, vec![1; 300]);
    let head = buf[..HEADER_SIZE].to_vec();
    assert_eq!(decode_header(&head), Ok((RequestType::ADDPLAYER, 300)));
    let buf = encode_packet(RequestType::ERROR, vec![]);
    assert_eq!(decode_header(&buf), Ok((RequestType::ERROR, 0)));
}

#[test]
fn header_errors() {
    let mut head = encode_packet(RequestType::STATE, vec![]);
    assert_eq!(check_header(&head), Ok(()));
    head[4] = 1;
    assert_eq!(
        check_header(&head),
        Err("Client supported version does not match server version.")
    );
    head[2] = 0;
    assert_eq!(check_header(&head), Err("Invalid magic bytes"));
    assert_eq!(decode_header(&head), Err("Invalid magic bytes"));
}

#[test]
fn selection_requests() {
    let mut s = SelectionState::new(InternalState { players: vec![], mafia_kill: -1, first_night: true });
    let (r, out) = phase_selection(
        &mut s,
        &req(RequestType::ADDPLAYER, ClientMessage::AddPlayer { player_name: "Bacon Man".to_string() }),
    );
    assert!(!r.should_advance() && !r.not_applicable_state());
    assert_eq!(out.len(), 1);
    assert!(matches!(out[0].reply, Reply::AddPlayer { player_id: 0 }));
    let (_, out) = phase_selection(&mut s, &bare(RequestType::STATE));
    assert!(matches!(out[0].reply, Reply::State { state: 0 }));
    let (r, out) = phase_selection(&mut s, &bare(RequestType::ADVANCE));
    assert!(!r.should_advance());
    assert_eq!(
        error_of(&out[0]),
        ("NOT_ENOUGH_PLAYERS".to_string(), "You need a minimum of 8 players.".to_string())
    );
    for i in 1..8 {
        phase_selection(
            &mut s,
            &req(RequestType::ADDPLAYER, ClientMessage::AddPlayer { player_name: format!("p{}", i) }),
        );
    }
    let (r, out) = phase_selection(&mut s, &bare(RequestType::ADVANCE));
    assert!(r.should_advance());
    assert_eq!(out[0].request_type, RequestType::ROLES);
    let st = s.finish();
    match &out[0].reply {
        Reply::Roles { roles } => {
            assert_eq!(roles.len(), 8);
            for i in 0..8 {
                assert_eq!(roles[i], st.players[i].role().to_string());
            }
            assert_eq!(roles.iter().filter(|r| r.as_str() == "Mafia").count(), 2);
        }
        _ => panic!("expected roles"),
    }
    let mut s = SelectionState::new(st);
    let (r, out) = phase_selection(&mut s, &bare(RequestType::VOTE));
    assert!(r.not_applicable_state());
    assert!(out.is_empty());
}

fn town(n: usize, first_night: bool) -> InternalState {
    InternalState {
        players: (0..n).map(|i| player(&format!("p{}", i), PlayerRole::Civilian)).collect(),
        mafia_kill: -1,
        first_night,
    }
}

#[test]
fn morning_requests() {
    let mut m = MorningState::new(town(3, false));
    let (r, out) = phase_morning(&mut m, &bare(RequestType::STATE));
    assert!(!r.should_advance());
    assert!(matches!(out[0].reply, Reply::State { state: 1 }));
    let (r, out) = phase_morning(
        &mut m,
        &req(RequestType::VOTE, ClientMessage::Vote { sender: 0, victim: 2 }),
    );
    assert!(!r.should_advance());
    assert!(matches!(out[0].reply, Reply::Vote { votes: 1, finished: false, lynched: 0 }));
    phase_morning(&mut m, &req(RequestType::VOTE, ClientMessage::Vote { sender: 1, victim: 2 }));
    let (r, out) = phase_morning(
        &mut m,
        &req(RequestType::VOTE, ClientMessage::Vote { sender: 2, victim: 0 }),
    );
    assert!(r.should_advance());
    assert!(matches!(out[0].reply, Reply::Vote { votes: 3, finished: true, lynched: 2 }));
    let (r, out) = phase_morning(&mut m, &bare(RequestType::ADVANCE));
    assert!(r.should_advance());
    assert!(matches!(out[0].reply, Reply::Vote { votes: 0, finished: false, lynched: 2 }));
    let mut fresh = MorningState::new(town(3, false));
    let (_, out) = phase_morning(&mut fresh, &bare(RequestType::ADVANCE));
    assert!(matches!(out[0].reply, Reply::Vote { votes: 0, finished: false, lynched: 255 }));
    let (r, out) = phase_morning(&mut m, &bare(RequestType::ADDPLAYER));
    assert!(r.not_applicable_state() && out.is_empty());

    let mut m = MorningState::new(town(3, true));
    let (r, out) = phase_morning(&mut m, &bare(RequestType::ADVANCE));
    assert!(r.should_advance());
    assert!(out.is_empty());
}

#[test]
fn special_and_mafia_requests() {
    let st = InternalState {
        players: vec![player("d", PlayerRole::Detective), player("m", PlayerRole::Mafia)],
        mafia_kill: -1,
        first_night: false,
    };
    let mut s = SpecialState::new(st);
    let (r, out) = phase_special(
        &mut s,
        &req(RequestType::DETECTIVEINVESTIGATE, ClientMessage::DetectiveInvestigate { sender: 0, target: 1 }),
    );
    assert!(!r.should_advance() && !r.not_applicable_state());
    match &out[0].reply {
        Reply::DetectiveInvestigate { target, role } => {
            assert_eq!(*target, 1);
            assert_eq!(role, "Mafia");
        }
        _ => panic!("expected an investigation"),
    }
    let (_, out) = phase_special(
        &mut s,
        &req(RequestType::DETECTIVEINVESTIGATE, ClientMessage::DetectiveInvestigate { sender: 1, target: 0 }),
    );
    assert_eq!(
        error_of(&out[0]),
        ("COULD_NOT_PERFORM_ACTION".to_string(), "Player is not a detective.".to_string())
    );
    let (_, out) = phase_special(&mut s, &bare(RequestType::STATE));
    assert!(matches!(out[0].reply, Reply::State { state: 2 }));
    let (r, _) = phase_special(&mut s, &bare(RequestType::ADDPLAYER));
    assert!(r.not_applicable_state());

    let mut m = MafiaState::new(s.finish());
    let (r, out) = phase_mafia(&mut m, &req(RequestType::VOTE, ClientMessage::Vote { sender: 1, victim: 0 }));
    assert!(!r.should_advance() && !r.not_applicable_state() && out.is_empty());
    let (_, out) = phase_mafia(&mut m, &bare(RequestType::STATE));
    assert!(matches!(out[0].reply, Reply::State { state: 3 }));
    let (r, _) = phase_mafia(&mut m, &bare(RequestType::DETECTIVEINVESTIGATE));
    assert!(r.not_applicable_state());
}

#[test]
fn server_new_game_id() {
    let s = GameServer::new();
    let t = GameServer::new();
    let mut a = GameServer::new();
    let out = a.handle_request(&bare(RequestType::NEWGAME)).outgoing;
    match &out[0].reply {
        Reply::NewGame { uuid, has_started } => {
            assert_eq!(uuid.len(), 32);
            assert!(uuid.chars().all(|c| c.is_ascii_hexdigit() && !c.is_ascii_uppercase()));
            assert!(!has_started);
        }
        _ => panic!("expected a new game"),
    }
    drop((s, t));
}

#[test]
fn server_before_and_after_new_game() {
    let mut s = GameServer::new();
    let step = s.handle_request(&bare(RequestType::HEARTBEAT));
    assert!(!step.aborted);
    assert_eq!(step.outgoing[0].request_type, RequestType::HEARTBEAT);
    assert!(matches!(step.outgoing[0].reply, Reply::Ack));
    let step = s.handle_request(&bare(RequestType::UNKNOWN));
    assert_eq!(step.outgoing[0].request_type, RequestType::FAILURE);
    let step = s.handle_request(&bare(RequestType::STATE));
    assert_eq!(
        error_of(&step.outgoing[0]),
        ("N_A_TO_STATE".to_string(), "This request is not applicable to this state.".to_string())
    );
    let step = s.handle_request(&bare(RequestType::NEWGAME));
    assert_eq!(step.outgoing[0].request_type, RequestType::NEWGAME);
    let step = s.handle_request(&bare(RequestType::STATE));
    assert!(matches!(step.outgoing[0].reply, Reply::State { state: 0 }));
    let step = s.handle_request(&bare(RequestType::NEWGAME));
    assert_eq!(step.outgoing.len(), 1);
    assert_eq!(error_of(&step.outgoing[0]).0, "N_A_TO_STATE");
}

#[test]
fn server_runs_a_game() {
    let mut s = GameServer::new();
    s.handle_request(&bare(RequestType::NEWGAME));
    for i in 0..8 {
        let step = s.handle_request(&req(
            RequestType::ADDPLAYER,
            ClientMessage::AddPlayer { player_name: format!("p{}", i) },
        ));
        assert!(matches!(step.outgoing[0].reply, Reply::AddPlayer { player_id } if player_id == i));
    }
    let step = s.handle_request(&bare(RequestType::ADVANCE));
    assert_eq!(step.outgoing[0].request_type, RequestType::ROLES);
    assert_eq!(s.session().phase(), murder::EGamePhase::Morning);
    // The first morning: nobody may vote, so the vote ends the connection.
    let step = s.handle_request(&req(RequestType::VOTE, ClientMessage::Vote { sender: 0, victim: 1 }));
    assert!(step.aborted);
    assert_eq!(
        error_of(&step.outgoing[0]),
        ("COULD_NOT_VOTE".to_string(), "Player cannot vote.".to_string())
    );
    // That morning has ended the first night, and the phase stays.
    assert_eq!(s.session().phase(), murder::EGamePhase::Morning);
    assert_eq!(s.session().get_players().len(), 8);
    let step = s.handle_request(&req(RequestType::VOTE, ClientMessage::Vote { sender: 0, victim: 1 }));
    assert!(!step.aborted);
}

#[test]
fn server_morning_advance() {
    let mut s = GameServer::new();
    s.handle_request(&bare(RequestType::NEWGAME));
    for i in 0..8 {
        s.handle_request(&req(
            RequestType::ADDPLAYER,
            ClientMessage::AddPlayer { player_name: format!("p{}", i) },
        ));
    }
    s.handle_request(&bare(RequestType::ADVANCE));
    let step = s.handle_request(&bare(RequestType::STATE));
    assert!(matches!(step.outgoing[0].reply, Reply::State { state: 1 }));
    // That packet ended the first night; a vote is now taken.
    let step = s.handle_request(&req(RequestType::VOTE, ClientMessage::Vote { sender: 0, victim: 1 }));
    assert!(!step.aborted);
    assert!(matches!(step.outgoing[0].reply, Reply::Vote { votes: 1, finished: false, lynched: 0 }));
    let step = s.handle_request(&bare(RequestType::ADVANCE));
    assert!(matches!(step.outgoing[0].reply, Reply::Vote { lynched: 255, .. }));
    assert_eq!(s.session().phase(), murder::EGamePhase::Special);
    let step = s.handle_request(&bare(RequestType::ADDPLAYER));
    assert_eq!(step.outgoing.len(), 1);
    assert_eq!(error_of(&step.outgoing[0]).0, "N_A_TO_STATE");
}

fn encoded(o: &Outgoing) -> Vec<u8> {
    encode_packet(o.request_type, encode_reply(&o.reply))
}

#[test]
fn unknown_request_gets_a_failure() {
    let mut s = GameServer::new();
    let head = vec![0x25, 0xC9, 0xC3, 0x5F, 0x00, 0x0A, 0x00, 0x00, 0x00, 0x00];
    let (t, len) = decode_header(&head).unwrap();
    assert_eq!((t, len), (RequestType::UNKNOWN, 0));
    let step = s.handle_request(&bare(t));
    assert!(!step.aborted);
    assert_eq!(step.outgoing.len(), 1);
    assert_eq!(
        encoded(&step.outgoing[0]),
        vec![0x25, 0xC9, 0xC3, 0x5F, 0x00, 0xC8, 0x00, 0x00, 0x00, 0x01, 0x01]
    );
    assert_eq!(s.session().get_players().len(), 0);
}

#[test]
fn heartbeat_payload() {
    let mut s = GameServer::new();
    let step = s.handle_request(&bare(RequestType::HEARTBEAT));
    assert_eq!(
        encoded(&step.outgoing[0]),
        vec![0x25, 0xC9, 0xC3, 0x5F, 0x00, 0x00, 0x00, 0x00, 0x00, 0x01, 0x01]
    );
}

#[test]
fn reply_payloads() {
    assert_eq!(encode_reply(&Reply::Ack), vec![1]);
    assert_eq!(encode_reply(&Reply::State { state: 1 }), vec![0x08, 0x01]);
    assert_eq!(encode_reply(&Reply::AddPlayer { player_id: 300 }), vec![0x08, 0xAC, 0x02]);
    assert_eq!(
        encode_reply(&Reply::Vote { votes: 2, finished: true, lynched: 255 }),
        vec![0x08, 0x02, 0x10, 0x01, 0x18, 0xFF, 0x01]
    );
    assert_eq!(
        encode_reply(&Reply::Roles { roles: vec!["Mafia".to_string(), "é".to_string()] }),
        vec![0x0A, 5, b'M', b'a', b'f', b'i', b'a', 0x0A, 2, 0xC3, 0xA9]
    );
    assert_eq!(encode_reply(&Reply::ChatChannels { channels: vec![1, 4] }), vec![0x08, 1, 0x08, 4]);
    assert_eq!(
        encode_reply(&Reply::DetectiveInvestigate { target: 3, role: "Civilian".to_string() }),
        vec![0x08, 3, 0x12, 8, b'C', b'i', b'v', b'i', b'l', b'i', b'a', b'n']
    );
    assert_eq!(
        encode_reply(&Reply::NewGame { uuid: "ab".to_string(), has_started: false }),
        vec![0x0A, 2, b'a', b'b']
    );
    assert_eq!(
        encode_reply(&Reply::NewGame { uuid: "ab".to_string(), has_started: true }),
        vec![0x0A, 2, b'a', b'b', 0x10, 0x01]
    );
}

#[test]
fn default_fields_are_left_out() {
    assert_eq!(encode_reply(&Reply::State { state: 0 }), Vec::<u8>::new());
    assert_eq!(encode_reply(&Reply::AddPlayer { player_id: 0 }), Vec::<u8>::new());
    assert_eq!(encode_reply(&Reply::RemovePlayer { player_id: 0 }), Vec::<u8>::new());
    assert_eq!(
        encode_reply(&Reply::Vote { votes: 0, finished: false, lynched: 0 }),
        Vec::<u8>::new()
    );
    assert_eq!(
        encode_reply(&Reply::Vote { votes: 0, finished: true, lynched: 0 }),
        vec![0x10, 0x01]
    );
    assert_eq!(
        encode_reply(&Reply::DetectiveInvestigate { target: 0, role: String::new() }),
        Vec::<u8>::new()
    );
    assert_eq!(
        encode_reply(&Reply::NewGame { uuid: String::new(), has_started: false }),
        Vec::<u8>::new()
    );
    // Repeated fields write every item, a 0 or an empty string too.
    assert_eq!(encode_reply(&Reply::ChatChannels { channels: vec![0] }), vec![0x08, 0]);
    assert_eq!(encode_reply(&Reply::Roles { roles: vec![String::new()] }), vec![0x0A, 0]);
    assert_eq!(get_error(String::new(), String::new()), Vec::<u8>::new());
}

#[test]
fn error_payload() {
    assert_eq!(
        get_error("A".to_string(), "bc".to_string()),
        vec![0x0A, 1, b'A', 0x12, 2, b'b', b'c']
    );
    let e = Reply::Error { error: "X".to_string(), details: String::new() };
    assert_eq!(encode_reply(&e), vec![0x0A, 1, b'X']);
    assert_eq!(get_error(String::new(), "d".to_string()), vec![0x12, 1, b'd']);
}

#[test]
fn remove_player_in_selection() {
    let mut s = SelectionState::new(InternalState { players: vec![], mafia_kill: -1, first_night: true });
    for name in ["a", "b", "c"].iter() {
        phase_selection(
            &mut s,
            &req(RequestType::ADDPLAYER, ClientMessage::AddPlayer { player_name: name.to_string() }),
        );
    }
    let (r, out) = phase_selection(
        &mut s,
        &req(RequestType::REMOVEPLAYER, ClientMessage::RemovePlayer { player_id: 0 }),
    );
    assert!(!r.should_advance() && !r.not_applicable_state());
    assert_eq!(out[0].request_type, RequestType::REMOVEPLAYER);
    assert!(matches!(out[0].reply, Reply::RemovePlayer { player_id: 0 }));
    let (_, out) = phase_selection(
        &mut s,
        &req(RequestType::REMOVEPLAYER, ClientMessage::RemovePlayer { player_id: 7 }),
    );
    assert_eq!(
        error_of(&out[0]),
        ("COULD_NOT_PERFORM_ACTION".to_string(), "Player doesn't exist.".to_string())
    );
    let st = s.finish();
    let names: Vec<&str> = st.players.iter().map(|p| p.name().as_str()).collect();
    assert_eq!(names, vec!["c", "b"]);
}

fn channels_of(o: &Outgoing) -> Vec<u32> {
    assert_eq!(o.request_type, RequestType::CHATCHANNELS);
    match &o.reply {
        Reply::ChatChannels { channels } => channels.clone(),
        _ => panic!("expected channels"),
    }
}

#[test]
fn chat_channels_in_each_phase() {
    let players = || vec![
        player("d", PlayerRole::Detective),
        player("m", PlayerRole::Mafia),
        player("c", PlayerRole::Civilian),
    ];
    let ask = |p: u32| req(RequestType::CHATCHANNELS, ClientMessage::ChatChannels { player: p });
    let st = InternalState { players: players(), mafia_kill: -1, first_night: true };
    let mut s = SelectionState::new(st);
    let (r, out) = phase_selection(&mut s, &ask(2));
    assert!(!r.should_advance() && !r.not_applicable_state());
    assert_eq!(channels_of(&out[0]), vec![1]);
    let (_, out) = phase_selection(&mut s, &ask(3));
    assert_eq!(
        error_of(&out[0]),
        ("COULD_NOT_PERFORM_ACTION".to_string(), "Couldn't find player.".to_string())
    );
    let mut m = MorningState::new(s.finish());
    let (_, out) = phase_morning(&mut m, &ask(1));
    assert_eq!(channels_of(&out[0]), vec![1]);
    let mut sp = SpecialState::new(m.finish());
    let (_, out) = phase_special(&mut sp, &ask(0));
    assert_eq!(channels_of(&out[0]), vec![4]);
    let (_, out) = phase_special(&mut sp, &ask(1));
    assert_eq!(channels_of(&out[0]), vec![0]);
    let mut st = sp.finish();
    st.players[2].kill();
    let mut mf = MafiaState::new(st);
    let (_, out) = phase_mafia(&mut mf, &ask(1));
    assert_eq!(channels_of(&out[0]), vec![3]);
    let (_, out) = phase_mafia(&mut mf, &ask(2));
    assert_eq!(channels_of(&out[0]), vec![2]);
}

#[test]
fn night_phases_advance() {
    let st = InternalState { players: vec![player("d", PlayerRole::Detective)], mafia_kill: -1, first_night: false };
    let mut sp = SpecialState::new(st);
    let (r, out) = phase_special(&mut sp, &bare(RequestType::ADVANCE));
    assert!(r.should_advance() && !r.not_applicable_state() && out.is_empty());
    let (r, out) = phase_special(&mut sp, &req(RequestType::VOTE, ClientMessage::Vote { sender: 0, victim: 0 }));
    assert!(!r.should_advance() && !r.not_applicable_state() && out.is_empty());
    let mut mf = MafiaState::new(sp.finish());
    let (r, out) = phase_mafia(&mut mf, &bare(RequestType::ADVANCE));
    assert!(r.should_advance() && !r.not_applicable_state() && out.is_empty());
    let (r, _) = phase_mafia(&mut mf, &bare(RequestType::NEWGAME));
    assert!(r.not_applicable_state() && !r.should_advance());
}

#[test]
fn server_goes_round_the_nights() {
    let mut s = GameServer::new();
    s.handle_request(&bare(RequestType::NEWGAME));
    for i in 0..8 {
        s.handle_request(&req(
            RequestType::ADDPLAYER,
            ClientMessage::AddPlayer { player_name: format!("p{}", i) },
        ));
    }
    s.handle_request(&bare(RequestType::ADVANCE));
    s.handle_request(&bare(RequestType::ADVANCE));
    assert_eq!(s.session().phase(), murder::EGamePhase::Special);
    let step = s.handle_request(&bare(RequestType::ADVANCE));
    assert!(step.outgoing.is_empty());
    assert_eq!(s.session().phase(), murder::EGamePhase::Mafia);
    s.handle_request(&bare(RequestType::ADVANCE));
    assert_eq!(s.session().phase(), murder::EGamePhase::Morning);
    let step = s.handle_request(&req(RequestType::CHATCHANNELS, ClientMessage::ChatChannels { player: 0 }));
    assert_eq!(channels_of(&step.outgoing[0]), vec![1]);
}

fn fields(strings: Vec<(u32, &str)>, uints: Vec<(u32, u32)>) -> PayloadFields {
    PayloadFields { strings: strings.into_iter().map(|(n, v)| (n, v.to_string())).collect(), uints }
}

#[test]
fn payload_fields_last_one_wins() {
    let f = fields(vec![(1, "a"), (2, "x"), (1, "b")], vec![(2, 7), (1, 3), (2, 9)]);
    assert_eq!(f.string(1), "b");
    assert_eq!(f.string(2), "x");
    assert_eq!(f.string(3), "");
    assert_eq!(f.uint(1), 3);
    assert_eq!(f.uint(2), 9);
    assert_eq!(f.uint(5), 0);
}

#[test]
fn messages_from_fields() {
    let f = fields(vec![(1, "ann")], vec![(1, 4), (2, 6)]);
    assert!(matches!(
        message_of(RequestType::ADDPLAYER, &f),
        ClientMessage::AddPlayer { player_name } if player_name == "ann"
    ));
    assert!(matches!(message_of(RequestType::REMOVEPLAYER, &f), ClientMessage::RemovePlayer { player_id: 4 }));
    assert!(matches!(message_of(RequestType::CHATCHANNELS, &f), ClientMessage::ChatChannels { player: 4 }));
    assert!(matches!(message_of(RequestType::VOTE, &f), ClientMessage::Vote { sender: 4, victim: 6 }));
    assert!(matches!(
        message_of(RequestType::DETECTIVEINVESTIGATE, &f),
        ClientMessage::DetectiveInvestigate { sender: 4, target: 6 }
    ));
    assert!(matches!(message_of(RequestType::STATE, &f), ClientMessage::NoMessage));
    let empty = fields(vec![], vec![]);
    assert!(matches!(message_of(RequestType::VOTE, &empty), ClientMessage::Vote { sender: 0, victim: 0 }));
}

#[test]
fn payload_read_only_where_the_request_applies() {
    let mut s = GameServer::new();
    assert!(!s.reads_payload(RequestType::ADDPLAYER));
    s.handle_request(&bare(RequestType::NEWGAME));
    assert!(s.reads_payload(RequestType::ADDPLAYER));
    assert!(s.reads_payload(RequestType::REMOVEPLAYER));
    assert!(s.reads_payload(RequestType::CHATCHANNELS));
    assert!(!s.reads_payload(RequestType::VOTE));
    assert!(!s.reads_payload(RequestType::DETECTIVEINVESTIGATE));
    assert!(!s.reads_payload(RequestType::STATE));
    assert!(!s.reads_payload(RequestType::ADVANCE));
}

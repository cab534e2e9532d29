use murder::{
    EChannel, EGamePhase, GamePhase, GameSession, InternalState, MafiaState, MorningState, Player,
    PlayerRole, SelectionState, SpecialState, roles_for,
};

fn player(name: &str, role: PlayerRole, dead: bool) -> Player {
    let mut p = Player::new(name.to_string());
    p.assign_role(role);
    if dead {
        p.kill();
    }
    p
}

fn state_of(players: Vec<Player>, first_night: bool) -> InternalState {
    InternalState { players, mafia_kill: -1, first_night }
}

fn civs(n: usize) -> Vec<Player> {
    (0..n).map(|i| player(&format!("p{}", i), PlayerRole::Civilian, false)).collect()
}

#[test]
fn player_starts_alive_without_role() {
    let mut p = Player::new("Red Max".to_string());
    assert_eq!(p.name(), "Red Max");
    assert_eq!(*p.role(), PlayerRole::Unassigned);
    assert!(!p.is_ghost());
    p.assign_role(PlayerRole::Detective);
    assert_eq!(*p.role(), PlayerRole::Detective);
    p.kill();
    assert!(p.is_ghost());
    p.kill();
    assert!(p.is_ghost());
    assert_eq!(p.name(), "Red Max");
}

#[test]
fn role_names() {
    assert_eq!(PlayerRole::Unassigned.to_string(), "Unassigned");
    assert_eq!(PlayerRole::Civilian.to_string(), "Civilian");
    assert_eq!(PlayerRole::Mafia.to_string(), "Mafia");
    assert_eq!(PlayerRole::Detective.to_string(), "Detective");
}

#[test]
fn role_pool_of_thirteen() {
    let (civilian, mafia, detective) = (PlayerRole::Civilian, PlayerRole::Mafia, PlayerRole::Detective);
    let roles = roles_for(13);
    assert_eq!(
        roles,
        vec![
            civilian, civilian, civilian, mafia, civilian, civilian, civilian, mafia, detective,
            civilian, civilian, mafia, civilian
        ]
    );
    assert_eq!(roles_for(0), vec![]);
    assert_eq!(roles_for(36)[35], detective);
}

#[test]
fn selection_adds_and_drops_players() {
    let mut s = SelectionState::new(state_of(vec![], true));
    assert_eq!(s.add_player("a".to_string()), 0);
    assert_eq!(s.add_player("b".to_string()), 1);
    assert_eq!(s.add_player("c".to_string()), 2);
    assert_eq!(s.get_player_count(), 3);
    assert_eq!(*s.get_player_role(1), PlayerRole::Unassigned);
    s.drop_player(0);
    let st = s.finish();
    let names: Vec<&str> = st.players.iter().map(|p| p.name().as_str()).collect();
    assert_eq!(names, vec!["c", "b"]);
}

#[test]
fn drop_undoes_add() {
    let mut s = SelectionState::new(state_of(civs(3), true));
    let id = s.add_player("new".to_string());
    s.drop_player(id);
    let st = s.finish();
    let names: Vec<&str> = st.players.iter().map(|p| p.name().as_str()).collect();
    assert_eq!(names, vec!["p0", "p1", "p2"]);
}

fn count(players: &[Player], role: PlayerRole) -> usize {
    players.iter().filter(|p| *p.role() == role).count()
}

#[test]
fn assign_roles_deals_the_pool_of_thirteen() {
    for _ in 0..20 {
        let mut s = SelectionState::new(state_of(vec![], true));
        for i in 0..13 {
            s.add_player(format!("p{}", i));
        }
        s.assign_roles();
        let st = s.finish();
        assert_eq!(st.players.len(), 13);
        assert_eq!(count(&st.players, PlayerRole::Civilian), 9);
        assert_eq!(count(&st.players, PlayerRole::Mafia), 3);
        assert_eq!(count(&st.players, PlayerRole::Detective), 1);
        for i in 0..13 {
            assert_eq!(st.players[i].name(), &format!("p{}", i));
            assert!(!st.players[i].is_ghost());
        }
    }
}

#[test]
fn assign_roles_of_eight_and_thirty_six() {
    let mut s = SelectionState::new(state_of(civs(8), true));
    s.assign_roles();
    let st = s.finish();
    assert_eq!(count(&st.players, PlayerRole::Mafia), 2);
    assert_eq!(count(&st.players, PlayerRole::Civilian), 6);
    assert_eq!(count(&st.players, PlayerRole::Detective), 0);
    let mut s = SelectionState::new(state_of(civs(36), true));
    s.assign_roles();
    let st = s.finish();
    assert_eq!(count(&st.players, PlayerRole::Detective), 4);
    assert_eq!(count(&st.players, PlayerRole::Mafia), 8);
    assert_eq!(count(&st.players, PlayerRole::Civilian), 24);
}

#[test]
fn shuffled_roles_are_dealt_from_the_back() {
    let mut s = SelectionState::new(state_of(civs(3), true));
    s.assign_shuffled_roles(vec![PlayerRole::Mafia, PlayerRole::Civilian, PlayerRole::Detective]);
    let st = s.finish();
    assert_eq!(*st.players[0].role(), PlayerRole::Detective);
    assert_eq!(*st.players[1].role(), PlayerRole::Civilian);
    assert_eq!(*st.players[2].role(), PlayerRole::Mafia);
}

#[test]
fn nobody_votes_on_the_first_morning() {
    let mut m = MorningState::new(state_of(civs(3), true));
    assert!(!m.can_anyone_vote());
    assert!(!m.can_vote(0));
    assert_eq!(m.pick_target(0, 1), Err("Player cannot vote."));
    let st = m.finish();
    assert!(!st.first_night);
}

#[test]
fn pick_target_errors() {
    let mut players = civs(3);
    players[2].kill();
    let mut m = MorningState::new(state_of(players, false));
    assert_eq!(m.pick_target(5, 0), Err("Player cannot vote."));
    assert_eq!(m.pick_target(2, 0), Err("Player cannot vote."));
    assert_eq!(m.pick_target(0, 9), Err("Victim not found."));
    assert_eq!(m.pick_target(0, 2), Err("Victim is a ghost."));
    assert_eq!(m.check_vote(0, 1), Ok(()));
    assert_eq!(m.pick_target(0, 1), Ok(1));
    assert_eq!(m.pick_target(0, 1), Err("Player cannot vote."));
    assert!(!m.can_vote(0));
    assert_eq!(m.pick_target(1, 0), Ok(2));
}

#[test]
fn abstain_counts_as_a_ballot() {
    let mut m = MorningState::new(state_of(civs(2), false));
    m.abstain(0);
    assert!(!m.can_vote(0));
    assert!(!m.counted_all_votes());
    m.abstain(0);
    assert_eq!(m.pick_target(1, 0), Ok(2));
    assert!(m.counted_all_votes());
}

#[test]
fn lynch_needs_two_fifths() {
    // 2 of 5 ballots: exactly 40 %.
    let mut m = MorningState::new(state_of(civs(5), false));
    m.pick_target(0, 3).unwrap();
    m.pick_target(1, 3).unwrap();
    m.abstain(2);
    m.abstain(3);
    m.pick_target(4, 0).unwrap();
    assert_eq!(m.lynch_target(), Some(3));
    let st = m.finish();
    assert!(st.players[3].is_ghost());
    assert!(!st.players[0].is_ghost());

    // 1 of 3 ballots: a third is not enough.
    let mut m = MorningState::new(state_of(civs(3), false));
    m.pick_target(0, 1).unwrap();
    m.pick_target(1, 2).unwrap();
    m.pick_target(2, 0).unwrap();
    assert_eq!(m.lynch_target(), None);
    let st = m.finish();
    assert!(st.players.iter().all(|p| !p.is_ghost()));
}

#[test]
fn lynch_tie_goes_to_the_lower_number() {
    let mut m = MorningState::new(state_of(civs(4), false));
    m.pick_target(0, 2).unwrap();
    m.pick_target(1, 2).unwrap();
    m.pick_target(2, 1).unwrap();
    m.pick_target(3, 1).unwrap();
    assert_eq!(m.lynch_target(), Some(1));
}

#[test]
fn no_ballots_no_lynch() {
    let mut m = MorningState::new(state_of(civs(4), false));
    assert_eq!(m.lynch_target(), None);
    m.abstain(0);
    m.abstain(1);
    assert_eq!(m.lynch_target(), None);
}

#[test]
fn winners() {
    let m = MorningState::new(state_of(civs(3), false));
    assert_eq!(m.has_team_won(), PlayerRole::Civilian);
    let players = vec![
        player("m1", PlayerRole::Mafia, false),
        player("m2", PlayerRole::Mafia, false),
        player("c", PlayerRole::Civilian, false),
        player("d", PlayerRole::Detective, true),
    ];
    let m = MorningState::new(state_of(players, false));
    assert_eq!(m.has_team_won(), PlayerRole::Mafia);
    let players = vec![
        player("m1", PlayerRole::Mafia, false),
        player("c", PlayerRole::Civilian, false),
        player("m2", PlayerRole::Mafia, true),
    ];
    let m = MorningState::new(state_of(players, false));
    assert_eq!(m.has_team_won(), PlayerRole::Unassigned);
}

#[test]
fn detective_investigation() {
    let players = vec![
        player("d", PlayerRole::Detective, false),
        player("m", PlayerRole::Mafia, true),
        player("c", PlayerRole::Civilian, false),
        player("dead detective", PlayerRole::Detective, true),
    ];
    let s = SpecialState::new(state_of(players, false));
    assert_eq!(s.detective_detect_role(0, 1), Ok(&PlayerRole::Mafia));
    assert_eq!(s.detective_detect_role(0, 2), Ok(&PlayerRole::Civilian));
    assert_eq!(s.detective_detect_role(9, 1), Err("Player doesn't exist."));
    assert_eq!(s.detective_detect_role(3, 1), Err("Player is ghost."));
    assert_eq!(s.detective_detect_role(2, 1), Err("Player is not a detective."));
    assert_eq!(s.detective_detect_role(0, 9), Err("Subject doesn't exist."));
}

#[test]
fn mafia_vote_hands_back_the_killer() {
    let players = vec![
        player("m", PlayerRole::Mafia, false),
        player("c", PlayerRole::Civilian, false),
        player("m2", PlayerRole::Mafia, true),
    ];
    let mut s = MafiaState::new(state_of(players, false));
    assert_eq!(s.mafia_vote(0, 1).map(|p| p.name().clone()), Ok("m".to_string()));
    assert!(s.mafia_vote(1, 0).is_err());
    assert_eq!(s.mafia_vote(2, 0).map(|_| ()), Err("Killer wasn't allowed to kill."));
    assert_eq!(s.mafia_vote(7, 0).map(|_| ()), Err("Killer wasn't allowed to kill."));
    let st = s.finish();
    assert!(!st.players[1].is_ghost());
}

#[test]
fn phases_go_round() {
    let mut g = GameSession::new();
    assert_eq!(g.phase(), EGamePhase::Selection);
    let mut seen = vec![];
    for _ in 0..7 {
        g.phase_end();
        seen.push(g.phase());
    }
    let (m, s, n) = (EGamePhase::Morning, EGamePhase::Special, EGamePhase::Mafia);
    assert_eq!(seen, vec![m, s, n, m, s, n, m]);
}

#[test]
fn phase_start_and_finish() {
    let mut g = GameSession::new();
    let mut p = g.phase_start();
    assert!(g.get_players().is_empty());
    match &mut p {
        GamePhase::Selection(s) => {
            s.add_player("a".to_string());
            s.add_player("b".to_string());
        }
        _ => panic!("expected selection"),
    }
    g.phase_finish(p);
    assert_eq!(g.get_players().len(), 2);
    assert_eq!(g.get_player(1).name(), "b");
    assert_eq!(g.phase(), EGamePhase::Selection);
    g.phase_end();
    let p = g.phase_start();
    match &p {
        GamePhase::Morning(m) => assert!(!m.can_anyone_vote()),
        _ => panic!("expected morning"),
    }
    g.phase_finish(p);
    let p = g.phase_start();
    match &p {
        GamePhase::Morning(m) => assert!(m.can_anyone_vote()),
        _ => panic!("expected morning"),
    }
    g.phase_finish(p);
}

#[test]
fn chat_channels() {
    let mut g = GameSession::new();
    let mut p = g.phase_start();
    if let GamePhase::Selection(s) = &mut p {
        for i in 0..9 {
            s.add_player(format!("p{}", i));
        }
        s.assign_shuffled_roles(vec![
            PlayerRole::Civilian,
            PlayerRole::Civilian,
            PlayerRole::Civilian,
            PlayerRole::Civilian,
            PlayerRole::Civilian,
            PlayerRole::Civilian,
            PlayerRole::Civilian,
            PlayerRole::Detective,
            PlayerRole::Mafia,
        ]);
    }
    g.phase_finish(p);
    // Player 0 is a mafioso, player 1 the detective, player 2 a civilian.
    assert_eq!(g.player_channels(0), vec![EChannel::Global]);
    g.phase_end(); // morning
    let p = g.phase_start();
    g.phase_finish(p); // the first morning passes without votes
    assert_eq!(g.player_channels(1), vec![EChannel::Global]);
    g.phase_end(); // special
    assert_eq!(g.player_channels(1), vec![EChannel::Detective]);
    assert_eq!(g.player_channels(0), vec![EChannel::NoChannel]);
    g.phase_end(); // mafia
    assert_eq!(g.player_channels(0), vec![EChannel::Mafia]);
    assert_eq!(g.player_channels(2), vec![EChannel::NoChannel]);
    g.phase_end(); // morning: lynch player 2 by hand
    let mut p = g.phase_start();
    if let GamePhase::Morning(m) = &mut p {
        m.pick_target(0, 2).unwrap();
        assert_eq!(m.lynch_target(), Some(2));
    }
    g.phase_finish(p);
    assert_eq!(g.player_channels(2), vec![EChannel::Ghosts]);
}

#[test]
fn ghost_exactly_when_killed() {
    let mut p = Player::new("x".to_string());
    p.assign_role(PlayerRole::Mafia);
    p.assign_role(PlayerRole::Civilian);
    assert!(!p.is_ghost());
    p.kill();
    p.assign_role(PlayerRole::Detective);
    assert!(p.is_ghost());
    assert_eq!(p.name(), "x");
}

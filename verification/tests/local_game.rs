use murder::{AiPlayer, EGamePhase, LocalGame, PhaseReport, PlayerRole};

fn names() -> Vec<String> {
    (0..15).map(|i| format!("bot{}", i)).collect()
}

#[test]
fn local_game_seats_fifteen() {
    let mut g = LocalGame::new();
    assert_eq!(g.play_phase(&names()), PhaseReport::Seated);
    assert_eq!(g.session().get_players().len(), 15);
    assert_eq!(g.ai_players().len(), 15);
    for (i, ai) in g.ai_players().iter().enumerate() {
        let role = *g.session().get_player(i).role();
        match ai {
            AiPlayer::Civilian(a) => {
                assert_eq!(role, PlayerRole::Civilian);
                assert_eq!(a.player_id, i);
            }
            AiPlayer::Mafia(a) => {
                assert_eq!(role, PlayerRole::Mafia);
                assert_eq!(a.player_id, i);
            }
            AiPlayer::Dumb(a) => {
                assert_eq!(role, PlayerRole::Detective);
                assert_eq!(a.player_id, i);
            }
        }
    }
}

#[test]
fn local_game_days() {
    let mut g = LocalGame::new();
    g.play_phase(&names());
    g.advance();
    assert_eq!(g.session().phase(), EGamePhase::Morning);
    assert_eq!(g.play_phase(&names()), PhaseReport::NoKillsBeforeFirstNight);
    g.advance();
    assert_eq!(g.play_phase(&names()), PhaseReport::Night);
    g.advance();
    assert_eq!(g.play_phase(&names()), PhaseReport::Night);
    g.advance();
    assert_eq!(g.play_phase(&names()), PhaseReport::NobodyKilled);
    assert!(g.session().get_players().iter().all(|p| !p.is_ghost()));
}

use circuit_watcher::phase::{classify_phase, plan_phase, status_text, wait_secs, GameflowPhase};

fn all_phases() -> Vec<GameflowPhase> {
    vec![
        GameflowPhase::Idle,
        GameflowPhase::Matchmaking,
        GameflowPhase::Lobby,
        GameflowPhase::ReadyCheck,
        GameflowPhase::ChampSelect,
        GameflowPhase::InProgress,
        GameflowPhase::WaitingForStats,
        GameflowPhase::PreEndOfGame,
        GameflowPhase::EndOfGame,
        GameflowPhase::Unimplemented("Reconnect".to_string()),
    ]
}

#[test]
fn classify_known_names() {
    assert!(matches!(classify_phase(None), GameflowPhase::Idle));
    assert!(matches!(classify_phase(Some("None")), GameflowPhase::Idle));
    assert!(matches!(classify_phase(Some("Matchmaking")), GameflowPhase::Matchmaking));
    assert!(matches!(classify_phase(Some("Lobby")), GameflowPhase::Lobby));
    assert!(matches!(classify_phase(Some("ReadyCheck")), GameflowPhase::ReadyCheck));
    assert!(matches!(classify_phase(Some("ChampSelect")), GameflowPhase::ChampSelect));
    assert!(matches!(classify_phase(Some("InProgress")), GameflowPhase::InProgress));
    assert!(matches!(classify_phase(Some("WaitingForStats")), GameflowPhase::WaitingForStats));
    assert!(matches!(classify_phase(Some("PreEndOfGame")), GameflowPhase::PreEndOfGame));
    assert!(matches!(classify_phase(Some("EndOfGame")), GameflowPhase::EndOfGame));
}

#[test]
fn classify_unknown_name_keeps_it() {
    match classify_phase(Some("Reconnect")) {
        GameflowPhase::Unimplemented(n) => assert_eq!(n, "Reconnect"),
        other => panic!("unexpected {:?}", other),
    }
    assert!(matches!(classify_phase(Some("lobby")), GameflowPhase::Unimplemented(_)));
}

#[test]
fn status_table() {
    let texts: Vec<Option<String>> = all_phases().iter().map(status_text).collect();
    assert_eq!(texts[0].as_deref(), Some("Idling..."));
    assert_eq!(texts[1].as_deref(), Some("Looking for a match"));
    assert_eq!(texts[2].as_deref(), Some("In Lobby"));
    assert_eq!(texts[3].as_deref(), Some("Match Found"));
    assert_eq!(texts[4].as_deref(), None);
    assert_eq!(texts[5].as_deref(), Some("Game in progress..."));
    assert_eq!(texts[6].as_deref(), Some("Waiting for Stats"));
    assert_eq!(texts[7].as_deref(), Some("Game in progress..."));
    assert_eq!(texts[8].as_deref(), Some("Game Ending..."));
    assert_eq!(texts[9].as_deref(), Some("Unimplemented Phase: Reconnect"));
}

#[test]
fn wait_table() {
    let waits: Vec<u64> = all_phases().iter().map(wait_secs).collect();
    assert_eq!(waits, vec![0, 0, 0, 0, 0, 20, 2, 10, 5, 10]);
}

#[test]
fn ready_check_accepts_only_with_toggle() {
    let on = plan_phase(&GameflowPhase::ReadyCheck, true, false);
    assert!(on.accept);
    assert_eq!(on.accepting_status.as_deref(), Some("Accepting match"));
    assert_eq!(on.status.as_deref(), Some("Match Found"));
    let off = plan_phase(&GameflowPhase::ReadyCheck, false, false);
    assert!(!off.accept);
    assert_eq!(off.accepting_status, None);
    assert_eq!(off.status.as_deref(), Some("Match Found"));
    let done = plan_phase(&GameflowPhase::ReadyCheck, true, true);
    assert!(!done.accept);
    assert_eq!(done.accepting_status, None);
    assert_eq!(done.status.as_deref(), Some("Match Found"));
}

#[test]
fn plan_is_pure_for_every_phase() {
    for p in all_phases() {
        for toggle in [false, true] {
            let a = plan_phase(&p, toggle, false);
            let b = plan_phase(&p, toggle, false);
            assert_eq!(a.status, b.status);
            assert_eq!(a.accepting_status, b.accepting_status);
            assert_eq!(a.accept, b.accept);
            assert_eq!(a.clear_role, b.clear_role);
            assert_eq!(a.reset_session, b.reset_session);
            assert_eq!(a.champ_select, b.champ_select);
            assert_eq!(a.wait_secs, b.wait_secs);
            if !matches!(p, GameflowPhase::ReadyCheck) {
                assert!(!a.accept);
                assert_eq!(a.status, plan_phase(&p, !toggle, true).status);
            }
        }
    }
}

#[test]
fn role_cleared_in_listed_phases() {
    let cleared: Vec<bool> = all_phases().iter().map(|p| plan_phase(p, false, false).clear_role).collect();
    assert_eq!(
        cleared,
        vec![false, true, true, false, false, false, false, false, true, true]
    );
    assert!(plan_phase(&GameflowPhase::ChampSelect, false, false).champ_select);
    assert!(!plan_phase(&GameflowPhase::ChampSelect, false, false).reset_session);
    assert!(plan_phase(&GameflowPhase::Matchmaking, false, false).reset_session);
}

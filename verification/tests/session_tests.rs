use phase_reflex::phase::{standard_phases, Pattern, Phase, Symbol};
use phase_reflex::session::{InputEvent, Session, SessionState};

fn single_phase_session(symbols: Vec<Symbol>) -> Session {
    let pattern = Pattern::new(symbols).unwrap();
    let phase = Phase::new(String::from("only"), String::from("about"), pattern);
    Session::new(vec![phase]).unwrap()
}

fn is_menu(s: &Session) -> bool {
    matches!(s.state(), SessionState::Menu)
}

fn is_success(s: &Session) -> bool {
    matches!(s.state(), SessionState::SuccessOverlay)
}

#[test]
fn empty_phase_list_is_a_configuration_error() {
    assert!(Session::new(Vec::new()).is_none());
}

#[test]
fn session_starts_in_the_menu_with_nothing_selected() {
    let s = single_phase_session(vec![Symbol::Up]);
    assert!(is_menu(&s));
    assert_eq!(s.navigator().selected(), None);
    assert_eq!(s.challenge_progress(), None);
}

#[test]
fn quit_from_the_menu_ends_the_session() {
    let mut s = single_phase_session(vec![Symbol::Up]);
    assert!(!s.step(InputEvent::Quit));
}

#[test]
fn select_without_a_selection_stays_in_the_menu() {
    let mut s = single_phase_session(vec![Symbol::Up]);
    assert!(s.step(InputEvent::Select));
    assert!(is_menu(&s));
    assert_eq!(s.challenge_progress(), None);
}

#[test]
fn full_pattern_reproduction_triggers_the_overlay() {
    let mut s = single_phase_session(vec![
        Symbol::Up,
        Symbol::Down,
        Symbol::Right,
        Symbol::Left,
    ]);
    s.step(InputEvent::Next);
    s.step(InputEvent::Select);
    assert_eq!(s.challenge_progress(), Some(0));
    for e in [InputEvent::Up, InputEvent::Down, InputEvent::Right] {
        assert!(s.step(e));
        assert!(!is_success(&s));
    }
    assert!(s.step(InputEvent::Left));
    assert!(is_success(&s), "completion must follow the fourth input");
}

#[test]
fn mismatch_resets_and_the_attempt_restarts() {
    let mut s = single_phase_session(vec![Symbol::Up, Symbol::Down, Symbol::Right]);
    s.step(InputEvent::Next);
    s.step(InputEvent::Select);
    let mut observed = Vec::new();
    for e in [
        InputEvent::Up,
        InputEvent::Up,
        InputEvent::Up,
        InputEvent::Down,
    ] {
        s.step(e);
        observed.push(s.challenge_progress().unwrap());
    }
    assert_eq!(observed, vec![1, 0, 1, 2]);
}

#[test]
fn unrecognized_input_during_a_challenge_counts_as_a_mismatch() {
    let mut s = single_phase_session(vec![Symbol::Up, Symbol::Down]);
    s.step(InputEvent::Next);
    s.step(InputEvent::Select);
    s.step(InputEvent::Up);
    assert_eq!(s.challenge_progress(), Some(1));
    s.step(InputEvent::Ignored);
    assert_eq!(s.challenge_progress(), Some(0));
    s.step(InputEvent::Next);
    assert_eq!(
        s.challenge_progress(),
        Some(0),
        "menu keys are mismatches during a challenge"
    );
}

#[test]
fn quit_during_a_challenge_returns_to_the_menu_and_keeps_the_selection() {
    let phases = standard_phases();
    let mut s = Session::new(phases).unwrap();
    s.step(InputEvent::Next);
    s.step(InputEvent::Next);
    assert_eq!(s.navigator().selected(), Some(1));
    s.step(InputEvent::Select);
    s.step(InputEvent::Down);
    assert!(s.step(InputEvent::Quit));
    assert!(is_menu(&s));
    assert_eq!(s.navigator().selected(), Some(1));
    assert_eq!(s.challenge_progress(), None);
}

#[test]
fn overlay_is_dismissed_only_by_quit_or_acknowledge() {
    let mut s = single_phase_session(vec![Symbol::Left]);
    s.step(InputEvent::Next);
    s.step(InputEvent::Select);
    s.step(InputEvent::Left);
    assert!(is_success(&s));
    assert!(s.step(InputEvent::Up));
    assert!(is_success(&s));
    assert!(s.step(InputEvent::Acknowledge));
    assert!(is_menu(&s));
}

#[test]
fn directional_keys_are_ignored_in_the_menu() {
    let mut s = single_phase_session(vec![Symbol::Up]);
    s.step(InputEvent::Up);
    s.step(InputEvent::Left);
    assert!(is_menu(&s));
    assert_eq!(s.navigator().selected(), None);
}

#[test]
fn menu_scenario_cycles_back_to_the_first_phase() {
    let phases = standard_phases();
    let mut s = Session::new(phases).unwrap();
    assert_eq!(s.navigator().selected(), None);
    s.step(InputEvent::Next);
    assert_eq!(s.navigator().selected(), Some(0));
    s.step(InputEvent::Next);
    s.step(InputEvent::Next);
    s.step(InputEvent::Next);
    assert_eq!(s.navigator().selected(), Some(0));
}

#[test]
fn standard_phases_match_the_configuration_table() {
    let phases = standard_phases();
    assert_eq!(phases.len(), 3);
    assert_eq!(phases[0].name(), "Phase 1");
    assert_eq!(phases[1].name(), "Phase 2");
    assert_eq!(phases[2].name(), "Phase 3");
    assert_eq!(phases[0].about(), "In this phase, stuff happens.");
    assert_eq!(phases[0].pattern().len(), 7);
    assert_eq!(phases[1].pattern().len(), 6);
    assert_eq!(phases[2].pattern().len(), 7);
    assert_eq!(phases[1].pattern().symbol_at(0), Symbol::Down);
    assert_eq!(phases[1].pattern().symbol_at(3), Symbol::Right);
    for i in 0..7 {
        assert_eq!(
            phases[0].pattern().symbol_at(i),
            phases[2].pattern().symbol_at(i)
        );
    }
}

use phase_reflex::navigator::PhaseListNavigator;
use phase_reflex::phase::{Pattern, Phase, Symbol};

fn phase(name: &str) -> Phase {
    let pattern = Pattern::new(vec![Symbol::Up, Symbol::Down]).unwrap();
    Phase::new(String::from(name), String::from("about"), pattern)
}

fn navigator(n: usize) -> PhaseListNavigator {
    let mut phases = Vec::new();
    for i in 0..n {
        phases.push(phase(&format!("phase {}", i)));
    }
    PhaseListNavigator::new(phases).unwrap()
}

#[test]
fn empty_phase_list_is_rejected() {
    assert!(PhaseListNavigator::new(Vec::new()).is_none());
}

#[test]
fn selection_starts_unset() {
    let nav = navigator(3);
    assert_eq!(nav.selected(), None);
    assert!(nav.selected_phase().is_none());
}

#[test]
fn first_next_selects_index_zero() {
    let mut nav = navigator(3);
    nav.next();
    assert_eq!(nav.selected(), Some(0));
}

#[test]
fn first_previous_selects_index_zero() {
    let mut nav = navigator(3);
    nav.previous();
    assert_eq!(nav.selected(), Some(0));
}

#[test]
fn next_wraps_from_last_index_to_zero() {
    let mut nav = navigator(3);
    nav.next();
    nav.next();
    nav.next();
    assert_eq!(nav.selected(), Some(2));
    nav.next();
    assert_eq!(nav.selected(), Some(0));
}

#[test]
fn previous_from_zero_wraps_to_last_index() {
    let mut nav = navigator(4);
    nav.next();
    assert_eq!(nav.selected(), Some(0));
    nav.previous();
    assert_eq!(nav.selected(), Some(3));
}

#[test]
fn next_cycles_through_all_indices_and_returns() {
    let mut nav = navigator(5);
    nav.next();
    let start = nav.selected().unwrap();
    let mut seen = vec![start];
    for _ in 0..4 {
        nav.next();
        seen.push(nav.selected().unwrap());
    }
    seen.sort();
    assert_eq!(seen, vec![0, 1, 2, 3, 4]);
    nav.next();
    assert_eq!(nav.selected(), Some(start));
}

#[test]
fn previous_cycles_through_all_indices_and_returns() {
    let mut nav = navigator(5);
    nav.previous();
    let start = nav.selected().unwrap();
    let mut seen = vec![start];
    for _ in 0..4 {
        nav.previous();
        seen.push(nav.selected().unwrap());
    }
    seen.sort();
    assert_eq!(seen, vec![0, 1, 2, 3, 4]);
    nav.previous();
    assert_eq!(nav.selected(), Some(start));
}

#[test]
fn selected_phase_follows_the_selection() {
    let mut nav = navigator(3);
    nav.next();
    nav.next();
    let p = nav.selected_phase().unwrap();
    assert_eq!(p.name(), "phase 1");
}

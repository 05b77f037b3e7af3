use vstd::prelude::*;

use crate::matcher::{match_step, SequenceMatcher};
use crate::navigator::{next_index, previous_index, PhaseListNavigator};
use crate::phase::{Phase, Symbol};

verus! {

/// One classified input from the player. Raw key codes are mapped to
/// these by the input layer, so the engine never sees a particular input
/// library's event type.
#[derive(Clone, Copy, PartialEq, Eq, Structural, Debug)]
pub enum InputEvent {
    Up,
    Down,
    Left,
    Right,
    Next,
    Previous,
    Select,
    Quit,
    Acknowledge,
    Ignored,
}

/// The directional symbol an event stands for, if any.
pub open spec fn event_symbol(e: InputEvent) -> Option<Symbol> {
    match e {
        InputEvent::Up => Some(Symbol::Up),
        InputEvent::Down => Some(Symbol::Down),
        InputEvent::Left => Some(Symbol::Left),
        InputEvent::Right => Some(Symbol::Right),
        _ => None,
    }
}

pub fn symbol_of_event(e: InputEvent) -> (r: Option<Symbol>)
    ensures
        r == event_symbol(e),
{
    match e {
        InputEvent::Up => Some(Symbol::Up),
        InputEvent::Down => Some(Symbol::Down),
        InputEvent::Left => Some(Symbol::Left),
        InputEvent::Right => Some(Symbol::Right),
        _ => None,
    }
}

/// What the session is doing: browsing the menu, matching a pattern, or
/// showing the success overlay. Exactly one variant is active at a time.
pub enum SessionState {
    Menu,
    Challenge(SequenceMatcher),
    SuccessOverlay,
}

/// The abstract counterpart of `SessionState`: during a challenge only
/// the progress is free state, since the matcher's target is always the
/// selected phase's pattern.
pub ghost enum StateModel {
    Menu,
    Challenge { progress: nat },
    SuccessOverlay,
}

/// The abstract state of a whole session: the phase list, the menu
/// selection, and the active state.
pub ghost struct SessionModel {
    pub phases: Seq<Phase>,
    pub selected: Option<usize>,
    pub state: StateModel,
}

/// The pattern of the currently selected phase (empty when nothing is
/// selected, which never happens during a challenge).
pub open spec fn selected_pattern(m: SessionModel) -> Seq<Symbol> {
    match m.selected {
        Some(i) => m.phases[i as int].pattern_view(),
        None => Seq::empty(),
    }
}

/// The complete transition rule of the session: from an abstract state
/// and one input event to the next abstract state, paired with whether
/// the session keeps running. Only `Quit` from the menu ends it.
pub open spec fn step_spec(m: SessionModel, e: InputEvent) -> (SessionModel, bool) {
    match m.state {
        StateModel::Menu => {
            if e == InputEvent::Quit {
                (m, false)
            } else if e == InputEvent::Next {
                (
                    SessionModel {
                        selected: Some(next_index(m.selected, m.phases.len() as int)),
                        ..m
                    },
                    true,
                )
            } else if e == InputEvent::Previous {
                (
                    SessionModel {
                        selected: Some(previous_index(m.selected, m.phases.len() as int)),
                        ..m
                    },
                    true,
                )
            } else if e == InputEvent::Select && m.selected is Some {
                (SessionModel { state: StateModel::Challenge { progress: 0 }, ..m }, true)
            } else {
                (m, true)
            }
        },
        StateModel::Challenge { progress } => {
            if e == InputEvent::Quit {
                (SessionModel { state: StateModel::Menu, ..m }, true)
            } else {
                let next = match event_symbol(e) {
                    Some(s) => match_step(selected_pattern(m), progress, s),
                    None => 0,
                };
                if next == selected_pattern(m).len() {
                    (SessionModel { state: StateModel::SuccessOverlay, ..m }, true)
                } else {
                    (SessionModel { state: StateModel::Challenge { progress: next }, ..m }, true)
                }
            }
        },
        StateModel::SuccessOverlay => {
            if e == InputEvent::Quit || e == InputEvent::Acknowledge {
                (SessionModel { state: StateModel::Menu, ..m }, true)
            } else {
                (m, true)
            }
        },
    }
}

/// The top-level state machine: owns the phase list navigator and the
/// active state, and consumes one classified input event at a time.
pub struct Session {
    navigator: PhaseListNavigator,
    state: SessionState,
}

impl View for Session {
    type V = SessionModel;

    closed spec fn view(&self) -> SessionModel {
        SessionModel {
            phases: self.navigator.phases_view(),
            selected: self.navigator.selected_view(),
            state: match self.state {
                SessionState::Menu => StateModel::Menu,
                SessionState::Challenge(m) => StateModel::Challenge {
                    progress: m.progress_view(),
                },
                SessionState::SuccessOverlay => StateModel::SuccessOverlay,
            },
        }
    }
}

impl Session {
    pub closed spec fn wf(&self) -> bool {
        &&& self.navigator.wf()
        &&& match self.state {
            SessionState::Challenge(m) => {
                &&& m.wf()
                &&& self.navigator.selected_view() is Some
                &&& m.target_view() == selected_pattern(self@)
            },
            _ => true,
        }
    }

    /// Starts a session in the menu, nothing selected yet; an empty phase
    /// list is a configuration error and is rejected.
    pub fn new(phases: Vec<Phase>) -> (r: Option<Session>)
        requires
            forall|i: int| 0 <= i < phases@.len() ==> (#[trigger] phases@[i]).wf(),
        ensures
            r is None <==> phases@.len() == 0,
            r matches Some(s) ==> {
                &&& s.wf()
                &&& s@.phases == phases@
                &&& s@.selected is None
                &&& s@.state is Menu
            },
    {
        match PhaseListNavigator::new(phases) {
            Some(navigator) => Some(Session { navigator, state: SessionState::Menu }),
            None => None,
        }
    }

    /// Read access to the phase list and the menu selection, for display.
    pub fn navigator(&self) -> (r: &PhaseListNavigator)
        ensures
            r.phases_view() == self@.phases,
            r.selected_view() == self@.selected,
    {
        &self.navigator
    }

    /// Read access to the active state, for display.
    pub fn state(&self) -> (r: &SessionState)
        requires
            self.wf(),
        ensures
            (*r matches SessionState::Menu) == (self@.state is Menu),
            (*r matches SessionState::SuccessOverlay) == (self@.state is SuccessOverlay),
            *r matches SessionState::Challenge(m) ==> self@.state matches StateModel::Challenge {
                progress,
            } && m.progress_view() == progress && m.target_view() == selected_pattern(self@),
    {
        &self.state
    }

    /// How far the player has come in the current challenge, if one is
    /// active.
    pub fn challenge_progress(&self) -> (r: Option<usize>)
        ensures
            r is Some <==> self@.state is Challenge,
            r matches Some(p) ==> self@.state matches StateModel::Challenge { progress } && p
                == progress,
    {
        match &self.state {
            SessionState::Challenge(m) => Some(m.progress()),
            _ => None,
        }
    }

    /// Consumes one input event and moves the session exactly as
    /// `step_spec` says; the result tells whether the session keeps
    /// running.
    pub fn step(&mut self, e: InputEvent) -> (running: bool)
        requires
            old(self).wf(),
        ensures
            final(self).wf(),
            (final(self)@, running) == step_spec(old(self)@, e),
    {
        let mut running = true;
        let mut st = SessionState::Menu;
        core::mem::swap(&mut st, &mut self.state);
        match st {
            SessionState::Menu => {
                match e {
                    InputEvent::Quit => {
                        running = false;
                    },
                    InputEvent::Next => {
                        self.navigator.next();
                    },
                    InputEvent::Previous => {
                        self.navigator.previous();
                    },
                    InputEvent::Select => {
                        match self.navigator.selected() {
                            Some(i) => {
                                let pattern = self.navigator.phase_at(i).pattern().duplicate();
                                self.state = SessionState::Challenge(SequenceMatcher::new(pattern));
                            },
                            None => {},
                        }
                    },
                    _ => {},
                }
            },
            SessionState::Challenge(mut m) => {
                match e {
                    InputEvent::Quit => {},
                    _ => {
                        let done = match symbol_of_event(e) {
                            Some(s) => m.step(s),
                            None => {
                                m.reset();
                                m.is_complete()
                            },
                        };
                        if done {
                            self.state = SessionState::SuccessOverlay;
                        } else {
                            self.state = SessionState::Challenge(m);
                        }
                    },
                }
            },
            SessionState::SuccessOverlay => {
                match e {
                    InputEvent::Quit | InputEvent::Acknowledge => {},
                    _ => {
                        self.state = SessionState::SuccessOverlay;
                    },
                }
            },
        }
        running
    }
}

} // verus!

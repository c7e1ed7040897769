//! The supervisor for the high-frequency position-advance task: a
//! tri-state that decides, on each supervisory check, whether the driver
//! must spawn the task or cancel it. Start and stop are idempotent: a
//! running task is never spawned twice, a stopped one never cancelled.

use vstd::prelude::*;

verus! {

/// Where the advance task stands.
#[derive(Debug, Clone, Copy, PartialEq, Eq, Structural)]
pub enum TickTaskState {
    /// No task runs.
    Stopped,
    /// A spawn was ordered and not yet confirmed.
    Starting,
    /// The task runs.
    Running,
}

/// What the driver must do after a supervisory check.
#[derive(Debug, Clone, Copy, PartialEq, Eq, Structural)]
pub enum SupervisorAction {
    /// Spawn the advance task.
    Start,
    /// Cancel the advance task.
    Stop,
    /// Leave things as they are.
    Nothing,
}

/// The advance-task supervisor.
#[derive(Debug)]
pub struct TickSupervisor {
    pub state: TickTaskState,
}

impl TickSupervisor {
    /// A supervisor with no task running.
    pub fn new() -> (r: Self)
        ensures
            r.state == TickTaskState::Stopped,
    {
        TickSupervisor { state: TickTaskState::Stopped }
    }

    /// Decides one supervisory check: start only from `Stopped` while
    /// playing, stop only a started task while not playing; everything
    /// else changes nothing, which makes start and stop idempotent.
    pub fn check(&mut self, is_playing: bool) -> (r: SupervisorAction)
        ensures
            is_playing && old(self).state == TickTaskState::Stopped ==> {
                r == SupervisorAction::Start && final(self).state == TickTaskState::Starting
            },
            is_playing && old(self).state != TickTaskState::Stopped ==> {
                r == SupervisorAction::Nothing && final(self).state == old(self).state
            },
            !is_playing && old(self).state != TickTaskState::Stopped ==> {
                r == SupervisorAction::Stop && final(self).state == TickTaskState::Stopped
            },
            !is_playing && old(self).state == TickTaskState::Stopped ==> {
                r == SupervisorAction::Nothing && final(self).state == old(self).state
            },
    {
        if is_playing {
            match self.state {
                TickTaskState::Stopped => {
                    self.state = TickTaskState::Starting;
                    SupervisorAction::Start
                },
                _ => SupervisorAction::Nothing,
            }
        } else {
            match self.state {
                TickTaskState::Stopped => SupervisorAction::Nothing,
                _ => {
                    self.state = TickTaskState::Stopped;
                    SupervisorAction::Stop
                },
            }
        }
    }

    /// The driver confirms the ordered spawn.
    pub fn note_started(&mut self)
        ensures
            final(self).state == if old(self).state == TickTaskState::Starting {
                TickTaskState::Running
            } else {
                old(self).state
            },
    {
        if matches!(self.state, TickTaskState::Starting) {
            self.state = TickTaskState::Running;
        }
    }
}

} // verus!

//! When the session is saved.
//!
//! A change schedules a save, which happens a moment later so that a burst of
//! changes is saved once. One save runs at a time, beside the event loop. Times
//! are in milliseconds of whatever clock the caller counts by.

use vstd::prelude::*;

use crate::app::state::{App, AppState};

verus! {

/// How long a save that is due waits for the one that runs.
pub const SESSION_SAVE_RETRY_MS: u64 = 250;

/// What is to be saved.
#[derive(Debug, Clone, Copy, PartialEq, Eq, Structural)]
pub enum SessionSaveJob {
    /// There is nothing to keep: the saved session is removed.
    Clear,
    /// The state is captured and written, with the panes' history when asked.
    Save { history: bool },
}

/// What is known of saving.
#[derive(Debug, PartialEq, Eq)]
pub struct SessionSaver {
    /// Whether sessions are not saved at all.
    pub no_session: bool,
    /// How long a change waits before it is saved.
    pub debounce_ms: u64,
    /// Whether the panes' history is saved too.
    pub persist_pane_history: bool,
    /// When the next save is due.
    pub deadline: Option<u64>,
    /// Whether a save runs.
    pub saving: bool,
}

/// A time this much later, as far as times go.
pub open spec fn later(now: u64, by: u64) -> u64 {
    if now + by > u64::MAX {
        u64::MAX
    } else {
        (now + by) as u64
    }
}

/// What is to be saved of this state. Peers are part of a session: without a
/// workspace they are still kept.
pub open spec fn job_of(state: AppState, history: bool) -> SessionSaveJob {
    if state.workspaces@.len() == 0 && state.peers@.len() == 0 {
        SessionSaveJob::Clear
    } else {
        SessionSaveJob::Save { history }
    }
}

impl SessionSaver {
    pub fn new(no_session: bool, debounce_ms: u64, persist_pane_history: bool) -> (r: Self)
        ensures
            r == (SessionSaver {
                no_session,
                debounce_ms,
                persist_pane_history,
                deadline: None,
                saving: false,
            }),
    {
        SessionSaver {
            no_session,
            debounce_ms,
            persist_pane_history,
            deadline: None,
            saving: false,
        }
    }

    /// Schedules a save, pushing back one that was scheduled.
    pub fn schedule_session_save(&mut self, now: u64)
        ensures
            *final(self) == (SessionSaver {
                deadline: if old(self).no_session {
                    old(self).deadline
                } else {
                    Some(later(now, old(self).debounce_ms))
                },
                ..*old(self)
            }),
    {
        if !self.no_session {
            self.deadline = Some(now.saturating_add(self.debounce_ms));
        }
    }

    /// Schedules a save when something changed since the last look.
    pub fn sync_session_save_schedule(&mut self, state: &mut AppState, now: u64)
        ensures
            *final(state) == (AppState { session_dirty: false, ..*old(state) }),
            *final(self) == (SessionSaver {
                deadline: if old(state).session_dirty && !old(self).no_session {
                    Some(later(now, old(self).debounce_ms))
                } else {
                    old(self).deadline
                },
                ..*old(self)
            }),
    {
        if state.session_dirty {
            state.session_dirty = false;
            self.schedule_session_save(now);
        }
    }

    /// What is to be saved now.
    pub fn capture_session_save_job(&self, app: &App) -> (r: SessionSaveJob)
        ensures
            r == job_of(app.state, self.persist_pane_history),
    {
        if app.state.workspaces.len() == 0 && app.state.peers.iter().len() == 0 {
            SessionSaveJob::Clear
        } else {
            SessionSaveJob::Save { history: self.persist_pane_history }
        }
    }

    /// Begins a save that is due, unless one runs: then it is tried again soon.
    /// `finished` says whether the save that ran is done. The job is to be run
    /// beside the event loop, or right away when that cannot be, which
    /// [`Self::save_ended`] follows.
    pub fn start_background_session_save(&mut self, app: &App, now: u64, finished: bool) -> (r:
        Option<SessionSaveJob>)
        ensures
            if old(self).no_session {
                &&& r is None
                &&& *final(self) == (SessionSaver { deadline: None, ..*old(self) })
            } else if old(self).saving && !finished {
                &&& r is None
                &&& *final(self) == (SessionSaver {
                    deadline: Some(later(now, SESSION_SAVE_RETRY_MS)),
                    ..*old(self)
                })
            } else {
                &&& r == Some(job_of(app.state, old(self).persist_pane_history))
                &&& *final(self) == (SessionSaver { deadline: None, saving: true, ..*old(self) })
            },
    {
        if self.no_session {
            self.deadline = None;
            return None;
        }
        if finished {
            self.saving = false;
        }
        if self.saving {
            self.deadline = Some(now.saturating_add(SESSION_SAVE_RETRY_MS));
            return None;
        }
        let job = self.capture_session_save_job(app);
        self.deadline = None;
        self.saving = true;
        Some(job)
    }

    /// No save runs any more.
    pub fn save_ended(&mut self)
        ensures
            *final(self) == (SessionSaver { saving: false, ..*old(self) }),
    {
        self.saving = false;
    }

    /// What is to be saved before going on, after the save that ran was waited
    /// for.
    pub fn save_session_now(&mut self, app: &App) -> (r: Option<SessionSaveJob>)
        ensures
            *final(self) == (SessionSaver { deadline: None, saving: false, ..*old(self) }),
            r == if old(self).no_session {
                None
            } else {
                Some(job_of(app.state, old(self).persist_pane_history))
            },
    {
        self.saving = false;
        self.deadline = None;
        if self.no_session {
            return None;
        }
        Some(self.capture_session_save_job(app))
    }
}

/// A session with a peer or a workspace in it is never cleared.
pub proof fn law_peers_survive_without_workspaces(state: AppState, history: bool)
    ensures
        job_of(state, history) == SessionSaveJob::Clear <==> state.workspaces@.len() == 0
            && state.peers@.len() == 0,
{
}

} // verus!

//! The application's top-level state machine: preparing a session (how many
//! images, how long each), running it, and stopping it.

use vstd::prelude::*;

use crate::backend::AppBackend;
use crate::catalog::used_sources;
use crate::sequencer::ConfigError;
use crate::session::{
    start_error, MessageRunSession, SessionConfiguration, SessionUpdate, WorkflowRunSession,
};
use crate::timer::ImageTime;

verus! {

/// The settings of the next session.
#[derive(Clone, Copy, Debug, PartialEq, Eq, Structural)]
pub struct WorkflowPrepareSession {
    pub image_count: usize,
    pub image_time: ImageTime,
}

impl Default for WorkflowPrepareSession {
    /// Five images, thirty seconds each.
    fn default() -> (r: Self)
        ensures
            r.image_count == 5,
            r.image_time == ImageTime::FixedTime(30_000),
    {
        WorkflowPrepareSession { image_count: 5, image_time: ImageTime::FixedTime(30_000) }
    }
}

/// An input while the next session is prepared.
#[derive(Clone, Copy, Debug, PartialEq, Eq, Structural)]
pub enum MessagePrepareSession {
    SetImageCount(usize),
    /// Seconds per image; zero means no limit.
    SetImageTime(u32),
    StartSession,
}

/// Where the application stands.
pub enum Workflow {
    PrepareSession,
    RunSession(WorkflowRunSession),
}

/// An input of the application.
#[derive(Debug)]
pub enum Message {
    PrepareSession(MessagePrepareSession),
    RunSession(MessageRunSession),
    /// Ends the running session and goes back to preparing the next one.
    StopSession,
}

/// The application's state: the settings of the next session, and the
/// session that runs, if one does.
pub struct State {
    preparation: WorkflowPrepareSession,
    current_workflow: Workflow,
}

impl State {
    pub closed spec fn preparation(&self) -> WorkflowPrepareSession {
        self.preparation
    }

    /// The session that runs, if one does.
    pub closed spec fn running(&self) -> Option<WorkflowRunSession> {
        match self.current_workflow {
            Workflow::PrepareSession => None,
            Workflow::RunSession(run) => Some(run),
        }
    }

    pub open spec fn wf(&self) -> bool {
        self.running() matches Some(run) ==> run.wf()
    }

    /// Preparing a session with the default settings.
    pub fn new() -> (r: Self)
        ensures
            r.wf(),
            r.running() is None,
            r.preparation() == (WorkflowPrepareSession {
                image_count: 5,
                image_time: ImageTime::FixedTime(30_000),
            }),
    {
        State {
            preparation: WorkflowPrepareSession::default(),
            current_workflow: Workflow::PrepareSession,
        }
    }

    pub fn preparation_settings(&self) -> (r: WorkflowPrepareSession)
        ensures
            r == self.preparation(),
    {
        self.preparation
    }

    pub fn run_session(&self) -> (r: Option<&WorkflowRunSession>)
        ensures
            match self.running() {
                Some(run) => r == Some(&run),
                None => r is None,
            },
    {
        match &self.current_workflow {
            Workflow::PrepareSession => None,
            Workflow::RunSession(run) => Some(run),
        }
    }

    /// Handles one input at time `now`. Settings change only while no
    /// session runs. Starting a session takes the sources chosen in `backend`
    /// that are still catalogued, and is refused as `WorkflowRunSession::new`
    /// refuses it. Session inputs go to the running session; stopping ends it.
    pub fn update(&mut self, message: Message, backend: &AppBackend, now: u64) -> (r: Result<
        SessionUpdate,
        ConfigError,
    >)
        requires
            old(self).wf(),
        ensures
            final(self).wf(),
            match message {
                Message::PrepareSession(m) => match old(self).running() {
                    Some(_) => *final(self) == *old(self) && (r matches Ok(u) && u.is_none()),
                    None => match m {
                        MessagePrepareSession::SetImageCount(n) => {
                            &&& final(self).running() is None
                            &&& final(self).preparation() == (WorkflowPrepareSession {
                                image_count: n,
                                ..old(self).preparation()
                            })
                            &&& r matches Ok(u) && u.is_none()
                        },
                        MessagePrepareSession::SetImageTime(seconds) => {
                            &&& final(self).running() is None
                            &&& final(self).preparation().image_count == old(
                                self,
                            ).preparation().image_count
                            &&& seconds == 0 ==> final(self).preparation().image_time
                                == ImageTime::NoLimit
                            &&& seconds > 0 ==> final(self).preparation().image_time
                                == ImageTime::FixedTime((seconds * 1000) as u64)
                            &&& r matches Ok(u) && u.is_none()
                        },
                        MessagePrepareSession::StartSession => {
                            let sources = used_sources(backend.catalog(), backend.used());
                            let p = old(self).preparation();
                            &&& final(self).preparation() == p
                            &&& match r {
                                Err(e) => {
                                    &&& start_error(sources) == Some(e)
                                    &&& final(self).running() is None
                                },
                                Ok(u) => {
                                    &&& start_error(sources) is None
                                    &&& final(self).running() matches Some(run)
                                        && WorkflowRunSession::started(
                                        sources,
                                        p.image_time,
                                        p.image_count,
                                        run,
                                        u,
                                    )
                                },
                            }
                        },
                    },
                },
                Message::RunSession(m) => {
                    &&& final(self).preparation() == old(self).preparation()
                    &&& match old(self).running() {
                        None => final(self).running() is None && (r matches Ok(u) && u.is_none()),
                        Some(run) => r matches Ok(u) && final(self).running() matches Some(next)
                            && WorkflowRunSession::update_post(run, next, m, now, u),
                    }
                },
                Message::StopSession => {
                    &&& final(self).preparation() == old(self).preparation()
                    &&& final(self).running() is None
                    &&& r matches Ok(u) && u.is_none()
                },
            },
    {
        match message {
            Message::PrepareSession(m) => {
                match self.current_workflow {
                    Workflow::RunSession(_) => {
                        return Ok(SessionUpdate::none());
                    },
                    Workflow::PrepareSession => {},
                }
                match m {
                    MessagePrepareSession::SetImageCount(n) => {
                        self.preparation.image_count = n;
                        Ok(SessionUpdate::none())
                    },
                    MessagePrepareSession::SetImageTime(seconds) => {
                        self.preparation.image_time = ImageTime::from_seconds(seconds);
                        Ok(SessionUpdate::none())
                    },
                    MessagePrepareSession::StartSession => {
                        let config = SessionConfiguration::new(
                            self.preparation.image_time,
                            self.preparation.image_count,
                            backend.used_image_source(),
                        );
                        match WorkflowRunSession::new(config) {
                            Ok((run, u)) => {
                                self.current_workflow = Workflow::RunSession(run);
                                Ok(u)
                            },
                            Err(e) => Err(e),
                        }
                    },
                }
            },
            Message::RunSession(m) => match &mut self.current_workflow {
                Workflow::PrepareSession => Ok(SessionUpdate::none()),
                Workflow::RunSession(run) => Ok(run.update(m, now)),
            },
            Message::StopSession => {
                self.current_workflow = Workflow::PrepareSession;
                Ok(SessionUpdate::none())
            },
        }
    }
}

} // verus!

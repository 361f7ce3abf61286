//! The private channel of one worker: which frame is served, in what order, and
//! what ends the session.
use vstd::prelude::*;
use crate::errors::PermitError;

verus! {

/// How many exports a session may begin.
pub const MAX_UPLOADS: u64 = 256;

/// How many bytes the exports of a session may announce together: 128 MiB.
pub const MAX_UPLOADED_BYTES: u64 = 134_217_728;

/// What a worker sent, as far as the order of a session depends on it.
pub enum Frame {
    CpuJob,
    /// The beginning of an export that announces so many retained bytes.
    UploadBegin { retained: u64 },
    /// Any later part of an export.
    UploadPart,
    Work,
    /// A control request that waits.
    Wait,
    /// Any other control request.
    Control,
    /// A model request, with the reason why its content is not valid if it is
    /// not.
    Model { invalid: Option<String> },
    BoundaryAck { id: String, cursor: u64 },
}

/// What the host is doing.
pub enum Phase {
    /// Waiting for a frame.
    Idle,
    /// Serving a CPU job request or an export.
    Background,
    /// Serving a work or control request, replying included.
    Request,
    /// Preparing the boundary before a model request.
    Preparing,
    /// Recording the context of a model request. `due` is the boundary to
    /// deliver.
    Recording { due: Option<(String, u64)> },
    /// Waiting for the acknowledgement of a boundary.
    AwaitingAck { id: String, cursor: u64 },
    /// Making the acknowledgement durable.
    Acknowledging,
    /// Calling the provider.
    Executing,
    /// Recording the outcome.
    Concluding { succeeded: bool },
    /// Marking the boundary as completed.
    Completing,
    /// Replying to a model request.
    Replying { succeeded: bool },
    Ended,
}

/// What happened.
pub enum Event {
    /// A frame came. `pipelined` says whether more came than that frame.
    Frame { frame: Frame, pipelined: bool },
    /// The peer wrote, hung up or failed while it was not its turn.
    Peer,
    /// The session's deadline passed.
    Deadline,
    /// The work at hand ended.
    Done(Result<(), PermitError>),
    /// The boundary was prepared: its id and cursor, where one is due.
    Prepared(Result<Option<(String, u64)>, PermitError>),
    /// The provider call ended.
    Executed { succeeded: bool },
}

/// What the host does next.
pub enum Action {
    ReadFrame,
    ServeCpuJob,
    ServeUpload,
    ServeWork,
    ServeWait,
    ServeControl,
    PrepareBoundary,
    /// Record the context; `questions` says whether open questions belong to it.
    RecordContext { questions: bool },
    /// Send the boundary, then read a frame.
    DeliverBoundary,
    Acknowledge,
    Execute,
    RecordOutcome { succeeded: bool },
    CompleteBoundary,
    Reply { succeeded: bool },
    /// Drop the channel and everything under way.
    End(PermitError),
    /// Nothing.
    Ignore,
}

/// A session: what the host is doing, and what the worker used of its budget.
pub struct Session {
    pub max_requests: u64,
    pub regular_requests: u64,
    pub uploads: u64,
    pub uploaded_bytes: u64,
    pub phase: Phase,
}

impl Session {
    /// Within the budget.
    pub open spec fn within_budget(&self) -> bool {
        &&& self.regular_requests <= self.max_requests
        &&& self.uploads <= MAX_UPLOADS
        &&& self.uploaded_bytes <= MAX_UPLOADED_BYTES
    }

    /// The session, now doing something else.
    pub open spec fn to(self, phase: Phase) -> Session {
        Session { phase, ..self }
    }

    pub open spec fn ended(self, error: PermitError) -> (Session, Action) {
        (self.to(Phase::Ended), Action::End(error))
    }

    /// The session after a regular request was counted.
    pub open spec fn counted(self) -> Session {
        Session { regular_requests: (self.regular_requests + 1) as u64, ..self }
    }

    /// Whether the peer must be silent: it may not write while a work, control
    /// or model request is served.
    pub open spec fn watched(&self) -> bool {
        self.phase is Request || self.phase is Executing || self.phase is Replying
    }

    /// What a frame leads to when the host waits for one.
    pub open spec fn on_frame(self, frame: Frame) -> (Session, Action) {
        match frame {
            Frame::CpuJob => (self.to(Phase::Background), Action::ServeCpuJob),
            Frame::UploadBegin { retained } => if self.uploads + 1 <= MAX_UPLOADS
                && self.uploaded_bytes + retained <= MAX_UPLOADED_BYTES {
                (
                    Session {
                        uploads: (self.uploads + 1) as u64,
                        uploaded_bytes: (self.uploaded_bytes + retained) as u64,
                        phase: Phase::Background,
                        ..self
                    },
                    Action::ServeUpload,
                )
            } else {
                self.ended(PermitError::Protocol)
            },
            Frame::UploadPart => self.ended(PermitError::Protocol),
            _ => if self.regular_requests + 1 > self.max_requests {
                self.ended(PermitError::Protocol)
            } else {
                match frame {
                    Frame::Work => (self.counted().to(Phase::Request), Action::ServeWork),
                    Frame::Wait => (self.counted().to(Phase::Request), Action::ServeWait),
                    Frame::Control => (self.counted().to(Phase::Request), Action::ServeControl),
                    Frame::Model { invalid: None } => (
                        self.counted().to(Phase::Preparing),
                        Action::PrepareBoundary,
                    ),
                    Frame::Model { invalid: Some(reason) } => self.counted().ended(
                        PermitError::Host(reason),
                    ),
                    _ => self.counted().ended(PermitError::Protocol),
                }
            },
        }
    }

    /// What the end of the work at hand leads to, where it went well.
    pub open spec fn on_done(self) -> (Session, Action) {
        match self.phase {
            Phase::Background | Phase::Request => (self.to(Phase::Idle), Action::ReadFrame),
            Phase::Recording { due: None } => (self.to(Phase::Executing), Action::Execute),
            Phase::Recording { due: Some(due) } => (
                self.to(Phase::AwaitingAck { id: due.0, cursor: due.1 }),
                Action::DeliverBoundary,
            ),
            Phase::Acknowledging => (self.to(Phase::Executing), Action::Execute),
            Phase::Concluding { succeeded: true } => (
                self.to(Phase::Completing),
                Action::CompleteBoundary,
            ),
            Phase::Concluding { succeeded: false } => (
                self.to(Phase::Replying { succeeded: false }),
                Action::Reply { succeeded: false },
            ),
            Phase::Completing => (
                self.to(Phase::Replying { succeeded: true }),
                Action::Reply { succeeded: true },
            ),
            Phase::Replying { succeeded: true } => (self.to(Phase::Idle), Action::ReadFrame),
            _ => self.ended(PermitError::Protocol),
        }
    }

    /// What an event leads to. What comes out of turn ends the session.
    pub open spec fn next(self, event: Event) -> (Session, Action) {
        if self.phase is Ended {
            (self, Action::Ignore)
        } else {
            match event {
                Event::Deadline => self.ended(PermitError::ChannelDeadline),
                Event::Peer => if self.watched() {
                    self.ended(PermitError::Protocol)
                } else {
                    (self, Action::Ignore)
                },
                Event::Done(Err(error)) => self.ended(error),
                Event::Done(Ok(_)) => self.on_done(),
                Event::Prepared(Err(error)) => self.ended(error),
                Event::Prepared(Ok(due)) => if self.phase is Preparing {
                    (
                        self.to(Phase::Recording { due }),
                        Action::RecordContext { questions: due is Some },
                    )
                } else {
                    self.ended(PermitError::Protocol)
                },
                Event::Executed { succeeded } => if self.phase is Executing {
                    (
                        self.to(Phase::Concluding { succeeded }),
                        Action::RecordOutcome { succeeded },
                    )
                } else {
                    self.ended(PermitError::Protocol)
                },
                Event::Frame { frame, pipelined } => match self.phase {
                    Phase::Idle => if pipelined {
                        self.ended(PermitError::Protocol)
                    } else {
                        self.on_frame(frame)
                    },
                    Phase::AwaitingAck { id, cursor } => match frame {
                        Frame::BoundaryAck { id: acked, cursor: at } => if acked@ == id@ && at
                            == cursor {
                            (self.to(Phase::Acknowledging), Action::Acknowledge)
                        } else {
                            self.ended(PermitError::Protocol)
                        },
                        _ => self.ended(PermitError::Protocol),
                    },
                    _ => self.ended(PermitError::Protocol),
                },
            }
        }
    }

    /// A session that begins, for a worker that was admitted to run.
    pub fn begin(admitted: bool, max_requests: u64) -> (res: Result<Session, PermitError>)
        ensures
            admitted ==> res == Ok::<_, PermitError>(
                (Session {
                    max_requests,
                    regular_requests: 0,
                    uploads: 0,
                    uploaded_bytes: 0,
                    phase: Phase::Idle,
                }),
            ),
            !admitted ==> res == Err::<Session, _>(PermitError::Protocol),
    {
        if !admitted {
            return Err(PermitError::Protocol);
        }
        Ok(
            Session {
                max_requests,
                regular_requests: 0,
                uploads: 0,
                uploaded_bytes: 0,
                phase: Phase::Idle,
            },
        )
    }

    fn end(self, error: PermitError) -> (res: (Session, Action))
        ensures
            res == self.ended(error),
    {
        (Session { phase: Phase::Ended, ..self }, Action::End(error))
    }

    fn take_frame(self, frame: Frame) -> (res: (Session, Action))
        requires
            self.within_budget(),
        ensures
            res == self.on_frame(frame),
    {
        let mut session = self;
        match frame {
            Frame::CpuJob => {
                session.phase = Phase::Background;
                return (session, Action::ServeCpuJob);
            },
            Frame::UploadBegin { retained } => {
                let total: u64 = match session.uploaded_bytes.checked_add(retained) {
                    None => {
                        return session.end(PermitError::Protocol);
                    },
                    Some(total) => total,
                };
                if session.uploads + 1 > MAX_UPLOADS || total > MAX_UPLOADED_BYTES {
                    return session.end(PermitError::Protocol);
                }
                session.uploads = session.uploads + 1;
                session.uploaded_bytes = total;
                session.phase = Phase::Background;
                return (session, Action::ServeUpload);
            },
            Frame::UploadPart => {
                return session.end(PermitError::Protocol);
            },
            _ => {},
        }
        if session.regular_requests >= session.max_requests {
            return session.end(PermitError::Protocol);
        }
        session.regular_requests = session.regular_requests + 1;
        match frame {
            Frame::Work => {
                session.phase = Phase::Request;
                (session, Action::ServeWork)
            },
            Frame::Wait => {
                session.phase = Phase::Request;
                (session, Action::ServeWait)
            },
            Frame::Control => {
                session.phase = Phase::Request;
                (session, Action::ServeControl)
            },
            Frame::Model { invalid: None } => {
                session.phase = Phase::Preparing;
                (session, Action::PrepareBoundary)
            },
            Frame::Model { invalid: Some(reason) } => session.end(PermitError::Host(reason)),
            _ => session.end(PermitError::Protocol),
        }
    }

    fn take_done(self) -> (res: (Session, Action))
        ensures
            res == self.on_done(),
    {
        let Session { max_requests, regular_requests, uploads, uploaded_bytes, phase } = self;
        let (phase, action): (Phase, Action) = match phase {
            Phase::Background | Phase::Request => (Phase::Idle, Action::ReadFrame),
            Phase::Recording { due: None } => (Phase::Executing, Action::Execute),
            Phase::Recording { due: Some((id, cursor)) } => (
                Phase::AwaitingAck { id, cursor },
                Action::DeliverBoundary,
            ),
            Phase::Acknowledging => (Phase::Executing, Action::Execute),
            Phase::Concluding { succeeded } => if succeeded {
                (Phase::Completing, Action::CompleteBoundary)
            } else {
                (Phase::Replying { succeeded: false }, Action::Reply { succeeded: false })
            },
            Phase::Completing => (
                Phase::Replying { succeeded: true },
                Action::Reply { succeeded: true },
            ),
            Phase::Replying { succeeded } => if succeeded {
                (Phase::Idle, Action::ReadFrame)
            } else {
                (Phase::Ended, Action::End(PermitError::Protocol))
            },
            _ => (Phase::Ended, Action::End(PermitError::Protocol)),
        };
        (Session { max_requests, regular_requests, uploads, uploaded_bytes, phase }, action)
    }

    /// What an event leads to.
    pub fn step(self, event: Event) -> (res: (Session, Action))
        requires
            self.within_budget(),
        ensures
            res == self.next(event),
            res.0.within_budget(),
    {
        if matches!(self.phase, Phase::Ended) {
            return (self, Action::Ignore);
        }
        match event {
            Event::Deadline => self.end(PermitError::ChannelDeadline),
            Event::Peer => if matches!(
                self.phase,
                Phase::Request | Phase::Executing | Phase::Replying { .. }
            ) {
                self.end(PermitError::Protocol)
            } else {
                (self, Action::Ignore)
            },
            Event::Done(Err(error)) => self.end(error),
            Event::Done(Ok(_)) => self.take_done(),
            Event::Prepared(Err(error)) => self.end(error),
            Event::Prepared(Ok(due)) => if matches!(self.phase, Phase::Preparing) {
                let questions = due.is_some();
                (
                    Session { phase: Phase::Recording { due }, ..self },
                    Action::RecordContext { questions },
                )
            } else {
                self.end(PermitError::Protocol)
            },
            Event::Executed { succeeded } => if matches!(self.phase, Phase::Executing) {
                (
                    Session { phase: Phase::Concluding { succeeded }, ..self },
                    Action::RecordOutcome { succeeded },
                )
            } else {
                self.end(PermitError::Protocol)
            },
            Event::Frame { frame, pipelined } => {
                if matches!(self.phase, Phase::Idle) {
                    return if pipelined {
                        self.end(PermitError::Protocol)
                    } else {
                        self.take_frame(frame)
                    };
                }
                let acknowledged = match &self.phase {
                    Phase::AwaitingAck { id, cursor } => match &frame {
                        Frame::BoundaryAck { id: acked, cursor: at } => *acked == *id && *at
                            == *cursor,
                        _ => false,
                    },
                    _ => false,
                };
                if acknowledged {
                    (Session { phase: Phase::Acknowledging, ..self }, Action::Acknowledge)
                } else {
                    self.end(PermitError::Protocol)
                }
            },
        }
    }
}

} // verus!

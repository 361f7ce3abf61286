//! What a session serves, what each thing that happens leads to, and what a whole
//! exchange with a worker looks like.
use vstd::prelude::*;
use crate::errors::PermitError;
use crate::session::{Action, Event, Frame, Session};

verus! {

/// Whether two sessions have the same allowance and used the same of it.
pub open spec fn same_use(one: Session, two: Session) -> bool {
    &&& one.max_requests == two.max_requests
    &&& one.regular_requests == two.regular_requests
    &&& one.uploads == two.uploads
    &&& one.uploaded_bytes == two.uploaded_bytes
}

/// Whether one more regular request was counted, and nothing else.
pub open spec fn one_more_request(before: Session, after: Session) -> bool {
    &&& after.max_requests == before.max_requests
    &&& after.regular_requests == before.regular_requests + 1
    &&& after.uploads == before.uploads
    &&& after.uploaded_bytes == before.uploaded_bytes
}

/// Whether the session ends with an error.
pub open spec fn ends_with(step: (Session, Action), error: PermitError) -> bool {
    step.0.phase is Ended && step.1 == Action::End(error)
}

/// A session serves every one of its first `max_requests` regular requests, however
/// many came before: a valid model request has its boundary prepared, and a work,
/// a waiting and any other control request are each served as what they are. Each
/// counts as one. A request beyond these ends the session, and so does a model
/// request whose content is not valid, with the reason.
pub proof fn every_request_within_the_budget_is_served(session: Session, reason: String)
    requires
        session.phase is Idle,
    ensures
        ({
            let model = session.next(
                Event::Frame { frame: Frame::Model { invalid: None }, pipelined: false },
            );
            let invalid = session.next(
                Event::Frame { frame: Frame::Model { invalid: Some(reason) }, pipelined: false },
            );
            let work = session.next(Event::Frame { frame: Frame::Work, pipelined: false });
            let wait = session.next(Event::Frame { frame: Frame::Wait, pipelined: false });
            let control = session.next(Event::Frame { frame: Frame::Control, pipelined: false });
            if session.regular_requests < session.max_requests {
                &&& model.1 is PrepareBoundary && model.0.phase is Preparing
                &&& one_more_request(session, model.0)
                &&& work.1 is ServeWork && work.0.phase is Request
                &&& one_more_request(session, work.0)
                &&& wait.1 is ServeWait && wait.0.phase is Request
                &&& one_more_request(session, wait.0)
                &&& control.1 is ServeControl && control.0.phase is Request
                &&& one_more_request(session, control.0)
                &&& ends_with(invalid, PermitError::Host(reason))
            } else {
                &&& ends_with(model, PermitError::Protocol)
                &&& ends_with(invalid, PermitError::Protocol)
                &&& ends_with(work, PermitError::Protocol)
                &&& ends_with(wait, PermitError::Protocol)
                &&& ends_with(control, PermitError::Protocol)
            }
        }),
{
}

/// An export is served where it is among the first 256 of its session and all of
/// them together announce at most 128 MiB, and then counts as one with what it
/// announced. Any other beginning ends the session, as does a part of an export
/// that did not begin, or an acknowledgement that nothing asked for. A CPU job is
/// served always, and costs nothing.
pub proof fn exports_are_served_within_their_allowance(
    session: Session,
    retained: u64,
    id: String,
    cursor: u64,
)
    requires
        session.phase is Idle,
    ensures
        ({
            let (after, action) = session.next(
                Event::Frame { frame: Frame::UploadBegin { retained }, pipelined: false },
            );
            if session.uploads < 256 && session.uploaded_bytes + retained <= 128 * 1024 * 1024 {
                &&& action is ServeUpload && after.phase is Background
                &&& after.uploads == session.uploads + 1
                &&& after.uploaded_bytes == session.uploaded_bytes + retained
                &&& after.regular_requests == session.regular_requests
                &&& after.max_requests == session.max_requests
            } else {
                ends_with((after, action), PermitError::Protocol)
            }
        }),
        ends_with(
            session.next(Event::Frame { frame: Frame::UploadPart, pipelined: false }),
            PermitError::Protocol,
        ),
        ends_with(
            session.next(
                Event::Frame { frame: Frame::BoundaryAck { id, cursor }, pipelined: false },
            ),
            PermitError::Protocol,
        ),
        ({
            let (after, action) = session.next(
                Event::Frame { frame: Frame::CpuJob, pipelined: false },
            );
            action is ServeCpuJob && after.phase is Background && same_use(session, after)
        }),
        session.within_budget() <==> session.regular_requests <= session.max_requests
            && session.uploads <= 256 && session.uploaded_bytes <= 128 * 1024 * 1024,
{
}

/// Whatever ends badly ends the session with its own error, and a deadline with
/// that of the channel. A peer that speaks out of turn ends it too, but only while
/// a work, control or model request is served or answered.
pub proof fn failures_end_the_session(session: Session, error: PermitError)
    requires
        !(session.phase is Ended),
    ensures
        ends_with(session.next(Event::Deadline), PermitError::ChannelDeadline),
        ends_with(session.next(Event::Done(Err(error))), error),
        ends_with(session.next(Event::Prepared(Err(error))), error),
        session.phase is Request || session.phase is Executing || session.phase is Replying
            ==> ends_with(session.next(Event::Peer), PermitError::Protocol),
        !(session.phase is Request || session.phase is Executing || session.phase is Replying)
            ==> session.next(Event::Peer) == (session, Action::Ignore),
        same_use(session, session.next(Event::Deadline).0),
        same_use(session, session.next(Event::Done(Err(error))).0),
        same_use(session, session.next(Event::Peer).0),
{
}

/// What is served in the background, and what a work or control request asked for,
/// is followed by the next frame, with nothing more counted.
pub proof fn a_served_request_is_followed_by_the_next(session: Session)
    requires
        session.phase is Background || session.phase is Request,
    ensures
        ({
            let (after, action) = session.next(Event::Done(Ok(())));
            action is ReadFrame && after.phase is Idle && same_use(session, after)
        }),
{
}

/// A model request for which no boundary is due: its context is recorded without
/// open questions, the provider is called, the outcome is recorded, and a success
/// is completed and answered, a failure only answered. After a success the session
/// waits for the next frame, with one more request counted; after a failure it
/// ends.
pub proof fn model_requests_run_to_their_answer(session: Session, succeeded: bool)
    requires
        session.phase is Idle,
        session.regular_requests < session.max_requests,
    ensures
        ({
            let taken = session.next(
                Event::Frame { frame: Frame::Model { invalid: None }, pipelined: false },
            );
            let prepared = taken.0.next(Event::Prepared(Ok(None)));
            let recorded = prepared.0.next(Event::Done(Ok(())));
            let executed = recorded.0.next(Event::Executed { succeeded });
            let concluded = executed.0.next(Event::Done(Ok(())));
            let completed = if succeeded {
                concluded.0.next(Event::Done(Ok(())))
            } else {
                concluded
            };
            let answered = completed.0.next(Event::Done(Ok(())));
            &&& taken.1 is PrepareBoundary
            &&& prepared.1 == (Action::RecordContext { questions: false })
            &&& recorded.1 is Execute
            &&& executed.1 == (Action::RecordOutcome { succeeded })
            &&& succeeded ==> concluded.1 is CompleteBoundary
            &&& completed.1 == (Action::Reply { succeeded })
            &&& succeeded ==> answered.1 is ReadFrame && answered.0.phase is Idle
            &&& !succeeded ==> ends_with(answered, PermitError::Protocol)
            &&& one_more_request(session, answered.0)
        }),
{
}

/// A model request for which a boundary is due: its context is recorded with the
/// open questions, the boundary is delivered, and the provider is called once the
/// worker acknowledged that very boundary and the acknowledgement is durable. An
/// acknowledgement of another one, or any other frame, ends the session.
pub proof fn due_boundaries_are_delivered_first(
    session: Session,
    id: String,
    cursor: u64,
    acked: String,
    at: u64,
    frame: Frame,
    pipelined: bool,
)
    requires
        session.phase is Preparing,
        !(frame is BoundaryAck),
    ensures
        ({
            let prepared = session.next(Event::Prepared(Ok(Some((id, cursor)))));
            let recorded = prepared.0.next(Event::Done(Ok(())));
            let answered = recorded.0.next(
                Event::Frame { frame: Frame::BoundaryAck { id: acked, cursor: at }, pipelined },
            );
            let kept = answered.0.next(Event::Done(Ok(())));
            let other = recorded.0.next(Event::Frame { frame, pipelined });
            &&& prepared.1 == (Action::RecordContext { questions: true })
            &&& recorded.1 is DeliverBoundary
            &&& ends_with(other, PermitError::Protocol)
            &&& acked@ == id@ && at == cursor ==> answered.1 is Acknowledge && kept.1 is Execute
                && kept.0.phase is Executing && same_use(session, kept.0)
            &&& !(acked@ == id@ && at == cursor) ==> ends_with(answered, PermitError::Protocol)
        }),
{
}

/// What comes out of turn ends the session: a frame while something is at hand or with
/// another one behind it, an outcome of a call that was not made, or a boundary that
/// nobody asked for.
pub proof fn out_of_turn_events_end_the_session(
    session: Session,
    frame: Frame,
    pipelined: bool,
    due: Option<(String, u64)>,
    succeeded: bool,
)
    requires
        !(session.phase is Ended),
    ensures
        !(session.phase is Idle || session.phase is AwaitingAck) ==> ends_with(
            session.next(Event::Frame { frame, pipelined }),
            PermitError::Protocol,
        ),
        session.phase is Idle && pipelined ==> ends_with(
            session.next(Event::Frame { frame, pipelined }),
            PermitError::Protocol,
        ),
        !(session.phase is Preparing) ==> ends_with(
            session.next(Event::Prepared(Ok(due))),
            PermitError::Protocol,
        ),
        !(session.phase is Executing) ==> ends_with(
            session.next(Event::Executed { succeeded }),
            PermitError::Protocol,
        ),
        session.phase is Idle || session.phase is Preparing || session.phase is AwaitingAck
            || session.phase is Executing ==> ends_with(
            session.next(Event::Done(Ok(()))),
            PermitError::Protocol,
        ),
{
}

/// A session after so many model requests in a row, each of which went well.
pub open spec fn after_requests(session: Session, requests: nat) -> Session
    decreases requests,
{
    if requests == 0 {
        session
    } else {
        after_requests(session, (requests - 1) as nat).next(
            Event::Frame { frame: Frame::Model { invalid: None }, pipelined: false },
        ).0.next(Event::Prepared(Ok(None))).0.next(Event::Done(Ok(()))).0.next(
            Event::Executed { succeeded: true },
        ).0.next(Event::Done(Ok(()))).0.next(Event::Done(Ok(()))).0.next(
            Event::Done(Ok(())),
        ).0
    }
}

/// A new session lets a worker make as many model requests one after the other as
/// it allows, and no more.
pub proof fn a_session_lasts_for_all_its_requests(session: Session, requests: nat)
    requires
        session.phase is Idle,
        session.regular_requests == 0,
        requests <= session.max_requests,
    ensures
        ({
            let after = after_requests(session, requests);
            let another = after.next(
                Event::Frame { frame: Frame::Model { invalid: None }, pipelined: false },
            );
            &&& after.phase is Idle
            &&& after.regular_requests == requests
            &&& after.max_requests == session.max_requests
            &&& requests < session.max_requests ==> another.1 is PrepareBoundary
            &&& requests == session.max_requests ==> ends_with(another, PermitError::Protocol)
        }),
    decreases requests,
{
    if requests > 0 {
        a_session_lasts_for_all_its_requests(session, (requests - 1) as nat);
        model_requests_run_to_their_answer(after_requests(session, (requests - 1) as nat), true);
    }
}

} // verus!

//! The order of a session, and its exports.
use model_permits::errors::PermitError;
use model_permits::session::{Action, Event, Frame, Phase, Session, MAX_UPLOADED_BYTES};
use model_permits::upload::{
    upload_deadline, upload_still_open, UploadAction, UploadProgress, UploadReply,
    MAX_UPLOAD_PARTS,
};

fn begin(max_requests: u64) -> Session {
    Session::begin(true, max_requests).unwrap_or_else(|_| panic!("an admitted session begins"))
}

fn frame(frame: Frame) -> Event {
    Event::Frame { frame, pipelined: false }
}

fn model() -> Event {
    frame(Frame::Model { invalid: None })
}

fn done() -> Event {
    Event::Done(Ok(()))
}

/// What the host does, name by name.
fn names(mut session: Session, events: Vec<Event>) -> Vec<String> {
    let mut names = Vec::new();
    for event in events {
        let (next, action) = session.step(event);
        session = next;
        names.push(
            match action {
                Action::ReadFrame => "read",
                Action::ServeCpuJob => "cpu",
                Action::ServeUpload => "upload",
                Action::ServeWork => "work",
                Action::ServeWait => "wait",
                Action::ServeControl => "control",
                Action::PrepareBoundary => "prepare",
                Action::RecordContext { questions: true } => "context+questions",
                Action::RecordContext { questions: false } => "context",
                Action::DeliverBoundary => "deliver",
                Action::Acknowledge => "acknowledge",
                Action::Execute => "execute",
                Action::RecordOutcome { succeeded: true } => "outcome",
                Action::RecordOutcome { succeeded: false } => "failure",
                Action::CompleteBoundary => "complete",
                Action::Reply { succeeded: true } => "reply",
                Action::Reply { succeeded: false } => "sorry",
                Action::End(PermitError::Protocol) => "broken",
                Action::End(_) => "end",
                Action::Ignore => "ignore",
            }
            .to_string(),
        );
    }
    names
}

#[test]
fn a_worker_that_was_not_admitted_has_no_session() {
    assert!(matches!(Session::begin(false, 8), Err(PermitError::Protocol)));
}

#[test]
fn a_model_request_without_a_boundary() {
    let names = names(
        begin(1),
        vec![
            model(),
            Event::Prepared(Ok(None)),
            done(),
            Event::Executed { succeeded: true },
            done(),
            done(),
            done(),
            model(),
        ],
    );
    assert_eq!(
        names,
        ["prepare", "context", "execute", "outcome", "complete", "reply", "read", "broken"]
    );
}

#[test]
fn a_boundary_is_acknowledged_before_the_provider_is_called() {
    let due = || Event::Prepared(Ok(Some(("b".to_string(), 3))));
    let ack = |id: &str, cursor| frame(Frame::BoundaryAck { id: id.to_string(), cursor });
    let served = names(
        begin(9),
        vec![
            model(),
            due(),
            done(),
            ack("b", 3),
            done(),
            Event::Executed { succeeded: false },
            done(),
            done(),
            model(),
        ],
    );
    assert_eq!(
        served,
        [
            "prepare",
            "context+questions",
            "deliver",
            "acknowledge",
            "execute",
            "failure",
            "sorry",
            "broken",
            "ignore"
        ]
    );
    for wrong in [ack("c", 3), ack("b", 2), frame(Frame::Work), model()] {
        let served = names(begin(9), vec![model(), due(), done(), wrong]);
        assert_eq!(served, ["prepare", "context+questions", "deliver", "broken"]);
    }
    assert_eq!(names(begin(9), vec![ack("b", 3)]), ["broken"]);
}

#[test]
fn requests_are_counted_and_cpu_jobs_are_not() {
    let mut events = Vec::new();
    for _ in 0..100 {
        events.push(frame(Frame::CpuJob));
        events.push(done());
    }
    for kind in [Frame::Work, Frame::Control, Frame::Wait] {
        events.push(frame(kind));
        events.push(done());
    }
    events.push(frame(Frame::Work));
    let names = names(begin(3), events);
    assert_eq!(names[..4], ["cpu", "read", "cpu", "read"]);
    assert_eq!(names[200..], ["work", "read", "control", "read", "wait", "read", "broken"]);
}

#[test]
fn exports_are_counted_in_number_and_in_bytes() {
    let mut events = Vec::new();
    for _ in 0..257 {
        events.push(frame(Frame::UploadBegin { retained: 0 }));
        events.push(done());
    }
    let counted = names(begin(0), events);
    assert_eq!(counted[510..514], ["upload", "read", "broken", "ignore"]);
    let bytes = |retained| frame(Frame::UploadBegin { retained });
    let full = names(begin(0), vec![bytes(MAX_UPLOADED_BYTES), done(), bytes(0), done(), bytes(1)]);
    assert_eq!(full, ["upload", "read", "upload", "read", "broken"]);
    assert_eq!(names(begin(0), vec![bytes(1), done(), bytes(u64::MAX)])[2], "broken");
    assert_eq!(names(begin(0), vec![frame(Frame::UploadPart)]), ["broken"]);
}

#[test]
fn peers_are_silent_until_it_is_their_turn() {
    let pipelined = Event::Frame { frame: Frame::CpuJob, pipelined: true };
    assert_eq!(names(begin(1), vec![pipelined]), ["broken"]);
    assert_eq!(names(begin(1), vec![frame(Frame::Work), Event::Peer]), ["work", "broken"]);
    assert_eq!(names(begin(1), vec![Event::Peer, frame(Frame::CpuJob), Event::Peer]), [
        "ignore", "cpu", "ignore"
    ]);
    let executing = vec![model(), Event::Prepared(Ok(None)), done(), Event::Peer];
    assert_eq!(names(begin(1), executing)[3], "broken");
}

#[test]
fn a_session_reports_what_ended_it() {
    let (session, action) = begin(1).step(Event::Deadline);
    assert!(matches!(session.phase, Phase::Ended));
    let Action::End(error) = action else { panic!() };
    assert_eq!(error.message(), "private model channel deadline");
    let invalid = frame(Frame::Model { invalid: Some("too many tools".to_string()) });
    let (_, Action::End(error)) = begin(1).step(invalid) else { panic!() };
    assert_eq!(error.message(), "too many tools");
    let (session, _) = begin(1).step(model());
    let (_, Action::End(error)) =
        session.step(Event::Prepared(Err(PermitError::BoundaryAlreadyReserved)))
    else {
        panic!()
    };
    assert_eq!(error, PermitError::BoundaryAlreadyReserved);
    let (_, Action::End(error)) = begin(1).step(Event::Done(Err(PermitError::UnknownPermit))) else {
        panic!()
    };
    assert_eq!(error, PermitError::UnknownPermit);
    assert!(matches!(
        begin(1).step(Event::Executed { succeeded: true }).1,
        Action::End(PermitError::Protocol)
    ));
}

#[test]
fn exports_have_their_own_deadline() {
    assert_eq!(upload_deadline(1_000_000, 5), 240_005);
    assert_eq!(upload_deadline(240_004, 5), 240_004);
    assert_eq!(upload_deadline(u64::MAX, u64::MAX - 1), u64::MAX);
    assert!(upload_still_open(4, 5, false, false));
    assert!(!upload_still_open(5, 5, false, false));
    assert!(!upload_still_open(4, 5, true, false));
    assert!(!upload_still_open(4, 5, false, true));
}

#[test]
fn an_export_goes_on_until_an_answer_is_no_acceptance() {
    let mut progress = UploadProgress::begin();
    assert_eq!(progress.action(&Ok(())), UploadAction::Begin);
    assert_eq!(progress.action(&Err(PermitError::ExportNotFinal)), UploadAction::Deny);
    assert!(progress.answered(&UploadReply::<()>::Accepted { offset: 0 }));
    assert_eq!(progress.action(&Ok(())), UploadAction::Apply);
    assert_eq!(progress.received(true), Ok(()));
    assert_eq!(progress.received(false), Err(PermitError::Protocol));
    assert!(!progress.answered(&UploadReply::Ready(())));
    assert!(!progress.answered(&UploadReply::<()>::Denied));
    assert!(matches!(
        UploadProgress::reply::<()>(Err("full".to_string())),
        UploadReply::Denied
    ));
    assert!(matches!(UploadProgress::reply(Ok(UploadReply::Ready(7))), UploadReply::Ready(7)));
    while progress.parts < MAX_UPLOAD_PARTS {
        progress.answered(&UploadReply::<()>::Accepted { offset: 0 });
    }
    assert_eq!(progress.received(true), Err(PermitError::Protocol));
}

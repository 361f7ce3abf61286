//! What a worker prints: its events, line by line, and how many are kept.
use std::collections::HashMap;
use vstd::prelude::*;
use crate::errors::PermitError;
use crate::outside;

verus! {

broadcast use vstd::std_specs::hash::group_hash_axioms;

/// The longest line that holds an event: 64 MiB.
pub const MAX_EVENT_LINE: u64 = 67_108_864;

/// How many events of a worker are told apart, and how many are kept.
pub const MAX_EVENTS: usize = 20_000;

/// Where the first line feed at or after `from` stands, or the end.
pub open spec fn line_end(bytes: Seq<u8>, from: int) -> int
    decreases bytes.len() - from,
{
    if from >= bytes.len() || bytes[from] == 10u8 {
        from
    } else {
        line_end(bytes, from + 1)
    }
}

/// A line without the carriage return that belongs to its line feed.
pub open spec fn without_return(line: Seq<u8>) -> Seq<u8> {
    if line.len() > 0 && line.last() == 13u8 {
        line.drop_last()
    } else {
        line
    }
}

/// The lines from `from` on that begin with an opening brace. A line ends with a
/// line feed, and with the carriage return before it if there is one; the last
/// line need not end.
pub open spec fn brace_lines(bytes: Seq<u8>, from: int) -> Seq<Seq<u8>>
    decreases bytes.len() - from,
{
    if from < 0 || from >= bytes.len() {
        Seq::empty()
    } else {
        let end = line_end(bytes, from);
        let line = if from <= end < bytes.len() {
            without_return(bytes.subrange(from, end))
        } else {
            bytes.subrange(from, bytes.len() as int)
        };
        let rest = if from <= end < bytes.len() {
            brace_lines(bytes, end + 1)
        } else {
            Seq::empty()
        };
        if line.len() > 0 && line[0] == 123u8 {
            seq![line] + rest
        } else {
            rest
        }
    }
}

fn find_line_end(bytes: &[u8], from: usize) -> (res: usize)
    requires
        from <= bytes@.len(),
    ensures
        res == line_end(bytes@, from as int),
        from <= res <= bytes@.len(),
{
    let mut i: usize = from;
    while i < bytes.len() && bytes[i] != 10u8
        invariant
            from <= i <= bytes@.len(),
            line_end(bytes@, from as int) == line_end(bytes@, i as int),
        decreases bytes@.len() - i,
    {
        i = i + 1;
    }
    i
}

fn copy_range(bytes: &[u8], from: usize, to: usize) -> (res: Vec<u8>)
    requires
        from <= to <= bytes@.len(),
    ensures
        res@ == bytes@.subrange(from as int, to as int),
{
    let mut copy: Vec<u8> = Vec::new();
    let mut i: usize = from;
    while i < to
        invariant
            from <= i <= to <= bytes@.len(),
            copy@ == bytes@.subrange(from as int, i as int),
        decreases to - i,
    {
        copy.push(bytes[i]);
        i = i + 1;
        assert(copy@ == bytes@.subrange(from as int, i as int));
    }
    copy
}

/// The event lines of what a worker printed, each to be read as JSON. What is no
/// UTF-8 breaks the protocol.
pub fn event_lines(bytes: &[u8]) -> (res: Result<Vec<Vec<u8>>, PermitError>)
    ensures
        if vstd::utf8::valid_utf8(bytes@) {
            res matches Ok(lines) && lines@.map_values(|line: Vec<u8>| line@) == brace_lines(
                bytes@,
                0,
            )
        } else {
            res == Err::<Vec<Vec<u8>>, _>(PermitError::Protocol)
        },
{
    if !outside::is_utf8(bytes) {
        return Err(PermitError::Protocol);
    }
    let ghost view = |line: Vec<u8>| line@;
    let mut lines: Vec<Vec<u8>> = Vec::new();
    let mut from: usize = 0;
    while from < bytes.len()
        invariant
            from <= bytes@.len(),
            view == (|line: Vec<u8>| line@),
            lines@.map_values(view) + brace_lines(bytes@, from as int) == brace_lines(bytes@, 0),
        decreases bytes@.len() - from,
    {
        let end: usize = find_line_end(bytes, from);
        let ghost before = lines@.map_values(view);
        let ghost rest = if end < bytes@.len() {
            brace_lines(bytes@, end + 1)
        } else {
            Seq::empty()
        };
        let mut stop: usize = end;
        if end < bytes.len() && end > from && bytes[end - 1] == 13u8 {
            stop = end - 1;
        }
        let ghost line = bytes@.subrange(from as int, stop as int);
        assert(end < bytes@.len() ==> line == without_return(
            bytes@.subrange(from as int, end as int),
        ));
        if stop > from && bytes[from] == 123u8 {
            lines.push(copy_range(bytes, from, stop));
            assert(lines@.map_values(view) == before.push(line));
            assert(before + (seq![line] + rest) == before.push(line) + rest);
        }
        if end == bytes.len() {
            from = end;
        } else {
            from = end + 1;
        }
    }
    assert(lines@.map_values(view) + brace_lines(bytes@, from as int) == lines@.map_values(view));
    Ok(lines)
}

/// Who an event says it comes from.
#[derive(Debug)]
pub enum Actor {
    Worker { id: String },
    Other,
}

/// What an event tells, as far as the host depends on it.
#[derive(Debug)]
pub enum EventKind {
    ToolStarted { arguments: String },
    ToolFinished { output: String },
    /// A result, with the failure that the host puts in the place of its outcome
    /// if it does.
    WorkCandidate { failure: Option<String> },
    Other,
}

/// An event of a worker. `K` is everything that the host only passes on.
#[derive(Debug)]
pub struct EventEnvelope<K> {
    pub event_id: u64,
    pub session_id: String,
    pub task_id: Option<String>,
    pub actor: Actor,
    pub conversation_id: Option<String>,
    pub parent_task_id: Option<String>,
    pub kind: EventKind,
    pub content: K,
}

impl<K> EventEnvelope<K> {
    /// Whether an event is of this worker and of nobody else.
    pub open spec fn of_worker(&self, worker_id: Seq<char>) -> bool {
        &&& self.session_id@ == worker_id
        &&& self.actor matches Actor::Worker { id }
        &&& id@ == worker_id
        &&& self.task_id matches Some(task)
        &&& task@ == worker_id
        &&& self.conversation_id is None
        &&& self.parent_task_id is None
    }

    /// Whether an event is of this worker and of nobody else.
    pub fn is_of_worker(&self, worker_id: &String) -> (res: bool)
        ensures
            res == self.of_worker(worker_id@),
    {
        let actor = match &self.actor {
            Actor::Worker { id } => *id == *worker_id,
            Actor::Other => false,
        };
        let task = match &self.task_id {
            Some(task) => *task == *worker_id,
            None => false,
        };
        self.session_id == *worker_id && actor && task && self.conversation_id.is_none()
            && self.parent_task_id.is_none()
    }

    /// Whether an event holds the raw text of a tool.
    pub open spec fn raw(&self) -> bool {
        self.kind is ToolStarted || self.kind is ToolFinished
    }

    /// Whether an event holds the raw text of a tool.
    pub fn is_raw(&self) -> (res: bool)
        ensures
            res == self.raw(),
    {
        matches!(self.kind, EventKind::ToolStarted { .. } | EventKind::ToolFinished { .. })
    }
}

/// Accept the events of a worker's line, as they were read from `event_lines`;
/// `None` stands for a line that could not be read. One event of anybody else
/// breaks the protocol.
pub fn parse_events<K>(parsed: Option<Vec<EventEnvelope<K>>>, worker_id: &String) -> (res: Result<
    Vec<EventEnvelope<K>>,
    PermitError,
>)
    ensures
        match parsed {
            Some(events) => if forall|i: int|
                0 <= i < events@.len() ==> (#[trigger] events@[i]).of_worker(worker_id@) {
                res == Ok::<_, PermitError>(events)
            } else {
                res == Err::<Vec<EventEnvelope<K>>, _>(PermitError::Protocol)
            },
            None => res == Err::<Vec<EventEnvelope<K>>, _>(PermitError::Protocol),
        },
{
    let events = match parsed {
        None => {
            return Err(PermitError::Protocol);
        },
        Some(events) => events,
    };
    let mut i: usize = 0;
    while i < events.len()
        invariant
            parsed == Some(events),
            i <= events.len(),
            forall|j: int| 0 <= j < i ==> (#[trigger] events@[j]).of_worker(worker_id@),
        decreases events.len() - i,
    {
        if !events[i].is_of_worker(worker_id) {
            assert(!events@[i as int].of_worker(worker_id@));
            return Err(PermitError::Protocol);
        }
        i = i + 1;
    }
    Ok(events)
}

/// How long a line may be, from its first byte: only lines with an event may be
/// longer than a frame.
pub fn line_bound(first: Option<u8>, max_frame: u64) -> (res: u64)
    ensures
        res == if first == Some(123u8) {
            MAX_EVENT_LINE
        } else {
            max_frame
        },
{
    match first {
        Some(123u8) => MAX_EVENT_LINE,
        _ => max_frame,
    }
}

/// Whether a line of `size` bytes is within its bound; else it breaks the
/// protocol.
pub fn check_line(first: Option<u8>, size: u64, max_frame: u64) -> (res: Result<(), PermitError>)
    ensures
        if size > (if first == Some(123u8) {
            MAX_EVENT_LINE
        } else {
            max_frame
        }) {
            res == Err::<(), _>(PermitError::Protocol)
        } else {
            res is Ok
        },
{
    if size > line_bound(first, max_frame) {
        Err(PermitError::Protocol)
    } else {
        Ok(())
    }
}

/// The trace of an event: the raw text of a tool goes through `redact`.
pub fn traced_kind<F: Fn(&String) -> String>(kind: &EventKind, redact: &F) -> (res: EventKind)
    requires
        forall|text: &String| call_requires(*redact, (text,)),
    ensures
        match *kind {
            EventKind::ToolStarted { arguments } => res matches EventKind::ToolStarted {
                arguments: kept,
            } && call_ensures(*redact, (&arguments,), kept),
            EventKind::ToolFinished { output } => res matches EventKind::ToolFinished {
                output: kept,
            } && call_ensures(*redact, (&output,), kept),
            _ => res == *kind,
        },
{
    match kind {
        EventKind::ToolStarted { arguments } => EventKind::ToolStarted {
            arguments: redact(arguments),
        },
        EventKind::ToolFinished { output } => EventKind::ToolFinished { output: redact(output) },
        EventKind::WorkCandidate { failure } => EventKind::WorkCandidate {
            failure: match failure {
                Some(message) => Some(message.clone()),
                None => None,
            },
        },
        EventKind::Other => EventKind::Other,
    }
}

fn same_bytes(one: &Vec<u8>, two: &Vec<u8>) -> (res: bool)
    ensures
        res == (one@ == two@),
{
    if one.len() != two.len() {
        return false;
    }
    let mut i: usize = 0;
    while i < one.len()
        invariant
            i <= one.len(),
            one@.len() == two@.len(),
            forall|j: int| 0 <= j < i ==> one@[j] == two@[j],
        decreases one.len() - i,
    {
        if one[i] != two[i] {
            return false;
        }
        i = i + 1;
    }
    assert(one@ == two@);
    true
}

/// The events of a worker so far. The digest of each event's line is remembered,
/// so that an event that is printed again counts once, and two events cannot
/// share an id.
pub struct Collector<K> {
    events: Vec<EventEnvelope<K>>,
    retained: usize,
    semantic_bytes: usize,
    seen: HashMap<u64, Vec<u8>>,
    max_frame: usize,
}

#[verifier::ext_equal]
pub struct CollectorView<K> {
    pub events: Seq<EventEnvelope<K>>,
    pub retained: usize,
    pub semantic_bytes: usize,
    pub seen: Map<u64, Seq<u8>>,
    pub max_frame: usize,
}

impl<K> View for Collector<K> {
    type V = CollectorView<K>;

    closed spec fn view(&self) -> CollectorView<K> {
        CollectorView {
            events: self.events@,
            retained: self.retained,
            semantic_bytes: self.semantic_bytes,
            seen: self.seen@.map_values(|digest: Vec<u8>| digest@),
            max_frame: self.max_frame,
        }
    }
}

/// A sum that stops at the largest number.
pub open spec fn saturated(one: usize, two: usize) -> usize {
    if one + two <= usize::MAX {
        (one + two) as usize
    } else {
        usize::MAX
    }
}

impl<K> CollectorView<K> {
    /// What a line leads to that shows an event: whether it is a new one, and
    /// what is remembered then.
    pub open spec fn observed(&self, event_id: u64, digest: Seq<u8>) -> Result<
        (bool, CollectorView<K>),
        PermitError,
    > {
        if self.seen.dom().contains(event_id) {
            if self.seen[event_id] == digest {
                Ok((false, *self))
            } else {
                Err(PermitError::Protocol)
            }
        } else if self.seen.dom().len() + 1 > MAX_EVENTS {
            Err(PermitError::Protocol)
        } else {
            Ok(
                (
                    true,
                    CollectorView { seen: self.seen.insert(event_id, digest), ..*self },
                ),
            )
        }
    }

    /// What a new event on a line of `size` bytes leads to. Raw tool text beyond
    /// a frame is let go, for its trace is durable already; nothing else is.
    pub open spec fn kept(&self, event: EventEnvelope<K>, size: usize) -> Result<
        CollectorView<K>,
        PermitError,
    > {
        let retained = saturated(self.retained, size);
        let semantic_bytes = if event.raw() {
            self.semantic_bytes
        } else {
            saturated(self.semantic_bytes, size)
        };
        if event.raw() && retained > self.max_frame {
            Ok(*self)
        } else if semantic_bytes > self.max_frame && !event.raw() {
            Err(PermitError::Protocol)
        } else if self.events.len() >= MAX_EVENTS {
            Err(PermitError::Protocol)
        } else {
            Ok(
                CollectorView {
                    events: self.events.push(event),
                    retained,
                    semantic_bytes,
                    ..*self
                },
            )
        }
    }
}

impl<K> Collector<K> {
    /// Nothing yet, with frames of at most `max_frame` bytes.
    pub fn new(max_frame: usize) -> (res: Collector<K>)
        ensures
            res@ == (CollectorView::<K> {
                events: Seq::empty(),
                retained: 0,
                semantic_bytes: 0,
                seen: Map::empty(),
                max_frame,
            }),
    {
        let collector = Collector {
            events: Vec::new(),
            retained: 0,
            semantic_bytes: 0,
            seen: HashMap::new(),
            max_frame,
        };
        assert(collector@.seen == Map::<u64, Seq<u8>>::empty());
        collector
    }

    /// A line shows an event. Returns whether it is a new one.
    pub fn observe(&mut self, event_id: u64, line: &[u8]) -> (res: Result<bool, PermitError>)
        ensures
            match old(self)@.observed(event_id, outside::sha256_of(line@)) {
                Ok((new, after)) => res == Ok::<_, PermitError>(new) && final(self)@ == after,
                Err(error) => res == Err::<bool, _>(error) && final(self)@ == old(self)@,
            },
    {
        self.observe_digest(event_id, outside::sha256(line))
    }

    /// A line with this digest shows an event. Returns whether it is a new one.
    pub fn observe_digest(&mut self, event_id: u64, digest: Vec<u8>) -> (res: Result<
        bool,
        PermitError,
    >)
        ensures
            match old(self)@.observed(event_id, digest@) {
                Ok((new, after)) => res == Ok::<_, PermitError>(new) && final(self)@ == after,
                Err(error) => res == Err::<bool, _>(error) && final(self)@ == old(self)@,
            },
    {
        match self.seen.get(&event_id) {
            Some(previous) => {
                return if same_bytes(previous, &digest) {
                    Ok(false)
                } else {
                    Err(PermitError::Protocol)
                };
            },
            None => {},
        }
        assert(self@.seen.dom() == self.seen@.dom());
        if self.seen.len() >= MAX_EVENTS {
            return Err(PermitError::Protocol);
        }
        self.seen.insert(event_id, digest);
        assert(self@.seen == old(self)@.seen.insert(event_id, digest@));
        Ok(true)
    }

    /// Keep a new event, from a line of `size` bytes.
    pub fn keep(&mut self, event: EventEnvelope<K>, size: usize) -> (res: Result<(), PermitError>)
        ensures
            match old(self)@.kept(event, size) {
                Ok(after) => res is Ok && final(self)@ == after,
                Err(error) => res == Err::<(), _>(error) && final(self)@ == old(self)@,
            },
    {
        let retained: usize = self.retained.saturating_add(size);
        if event.is_raw() {
            if retained > self.max_frame {
                return Ok(());
            }
            if self.events.len() >= MAX_EVENTS {
                return Err(PermitError::Protocol);
            }
        } else {
            let semantic_bytes: usize = self.semantic_bytes.saturating_add(size);
            if semantic_bytes > self.max_frame || self.events.len() >= MAX_EVENTS {
                return Err(PermitError::Protocol);
            }
            self.semantic_bytes = semantic_bytes;
        }
        self.retained = retained;
        self.events.push(event);
        Ok(())
    }

    /// The events that are kept so far.
    pub fn events(&self) -> (res: &Vec<EventEnvelope<K>>)
        ensures
            res@ == self@.events,
    {
        &self.events
    }

    /// The events that are kept, once the worker prints no more. `size` is how
    /// many bytes they take together; where that is more than a frame, raw tool
    /// text is let go, and `confirm` has the last word on the rest.
    pub fn conclude(self, size: usize) -> (res: (Vec<EventEnvelope<K>>, bool))
        ensures
            res.1 == (size > self@.max_frame),
            res.0@ == if size > self@.max_frame {
                semantic(self@.events)
            } else {
                self@.events
            },
    {
        if size <= self.max_frame {
            return (self.events, false);
        }
        let mut kept: Vec<EventEnvelope<K>> = Vec::new();
        let ghost all = self.events@;
        for event in iter: self.events
            invariant
                iter.seq() == all,
                kept@ == semantic(all.take(iter.index() as int)),
        {
            assert(all.take(iter.index() + 1).drop_last() == all.take(iter.index() as int));
            if !event.is_raw() {
                kept.push(event);
            }
        }
        assert(all.take(all.len() as int) == all);
        (kept, true)
    }
}

/// The events that hold no raw tool text, in order.
pub open spec fn semantic<K>(events: Seq<EventEnvelope<K>>) -> Seq<EventEnvelope<K>>
    decreases events.len(),
{
    if events.len() == 0 {
        Seq::empty()
    } else if events.last().raw() {
        semantic(events.drop_last())
    } else {
        semantic(events.drop_last()).push(events.last())
    }
}

/// Whether the events that are left after raw tool text was let go fit a frame.
pub fn confirm(size: usize, max_frame: usize) -> (res: Result<(), PermitError>)
    ensures
        if size > max_frame {
            res == Err::<(), _>(PermitError::Protocol)
        } else {
            res is Ok
        },
{
    if size > max_frame {
        Err(PermitError::Protocol)
    } else {
        Ok(())
    }
}

} // verus!

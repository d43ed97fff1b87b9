//! The void-upload consumer: a state machine that drains a request body.
//!
//! The machine moves `Start -> Draining -> {Completed | Failed}`. It is driven
//! one input at a time by whoever owns the body stream: the driver pulls the
//! next chunk, hands the machine what the pull gave, emits the event the
//! machine answers with, and stops pulling once the machine names a status.
//! The machine keeps a byte counter and nothing else of what it is shown.
//!
//! The counter is 128 bits wide: no stream of fewer than 2^64 chunks can take
//! it to its end, whatever the chunks' lengths.

use crate::status::Status;
use vstd::prelude::*;

verus! {

/// Where a consumer stands in the life of one upload.
#[derive(Debug, Clone, Copy, PartialEq, Eq, Structural)]
pub enum Phase {
    /// The handler has not been invoked yet.
    Start,
    /// Chunks are being pulled and counted.
    Draining,
    /// The stream ended without an error. Terminal.
    Completed,
    /// A pull failed. Terminal.
    Failed,
}

/// The mathematical state of a consumer: its phase and the bytes counted so far.
pub struct State {
    /// Where the consumer stands.
    pub phase: Phase,
    /// The bytes counted so far.
    pub total: nat,
}

/// The mathematical content of an input: what a consumer can be told.
pub enum Signal {
    /// The handler was invoked.
    Invoked,
    /// A pull gave a chunk with these bytes.
    Chunk(Seq<u8>),
    /// A pull failed; the text describes the failure.
    ReadError(Seq<char>),
    /// A pull found the end of the stream.
    EndOfStream,
}

/// The mathematical content of a telemetry event.
pub enum Notice {
    /// The upload began.
    Started,
    /// A chunk was counted; `total` is the running total after it.
    Progress { total: nat },
    /// The stream ended; `total` is the final total.
    Finished { total: nat },
    /// A pull failed; `detail` describes the failure.
    ReadFailed { detail: Seq<char> },
}

/// What a transition gives out besides the new state.
pub struct Output {
    /// The event to emit, if the transition emits one.
    pub notice: Option<Notice>,
    /// The response status, on the transition that decides it.
    pub status: Option<Status>,
}

impl State {
    /// The state before the handler is invoked.
    pub open spec fn initial() -> State {
        State { phase: Phase::Start, total: 0 }
    }

    /// True in `Completed` and in `Failed`.
    pub open spec fn is_terminal(self) -> bool {
        self.phase == Phase::Completed || self.phase == Phase::Failed
    }

    /// True where the phase has a transition for the signal. A signal without
    /// one is ignored: the state stays and nothing is given out.
    pub open spec fn reacts_to(self, signal: Signal) -> bool {
        match self.phase {
            Phase::Start => signal is Invoked,
            Phase::Draining => !(signal is Invoked),
            Phase::Completed | Phase::Failed => false,
        }
    }

    /// The state after one signal.
    pub open spec fn next(self, signal: Signal) -> State {
        match (self.phase, signal) {
            (Phase::Start, Signal::Invoked) => State { phase: Phase::Draining, total: self.total },
            (Phase::Draining, Signal::Chunk(bytes)) => State {
                phase: Phase::Draining,
                total: self.total + bytes.len(),
            },
            (Phase::Draining, Signal::ReadError(_)) => State {
                phase: Phase::Failed,
                total: self.total,
            },
            (Phase::Draining, Signal::EndOfStream) => State {
                phase: Phase::Completed,
                total: self.total,
            },
            _ => self,
        }
    }

    /// What the transition on one signal gives out.
    pub open spec fn output(self, signal: Signal) -> Output {
        match (self.phase, signal) {
            (Phase::Start, Signal::Invoked) => Output {
                notice: Some(Notice::Started),
                status: None,
            },
            (Phase::Draining, Signal::Chunk(bytes)) => Output {
                notice: Some(Notice::Progress { total: self.total + bytes.len() }),
                status: None,
            },
            (Phase::Draining, Signal::ReadError(detail)) => Output {
                notice: Some(Notice::ReadFailed { detail }),
                status: Some(Status::ServerError),
            },
            (Phase::Draining, Signal::EndOfStream) => Output {
                notice: Some(Notice::Finished { total: self.total }),
                status: Some(Status::Success),
            },
            _ => Output { notice: None, status: None },
        }
    }

    /// The status that a terminal state stands for; none before that.
    pub open spec fn status(self) -> Option<Status> {
        match self.phase {
            Phase::Completed => Some(Status::Success),
            Phase::Failed => Some(Status::ServerError),
            _ => None,
        }
    }

    /// The state after a sequence of signals, taken in order.
    pub open spec fn run(self, signals: Seq<Signal>) -> State
        decreases signals.len(),
    {
        if signals.len() == 0 {
            self
        } else {
            self.run(signals.drop_last()).next(signals.last())
        }
    }

    /// The events given out over a sequence of signals, in order.
    pub open spec fn trace(self, signals: Seq<Signal>) -> Seq<Notice>
        decreases signals.len(),
    {
        if signals.len() == 0 {
            Seq::empty()
        } else {
            let before = self.run(signals.drop_last());
            let earlier = self.trace(signals.drop_last());
            match before.output(signals.last()).notice {
                Some(notice) => earlier.push(notice),
                None => earlier,
            }
        }
    }
}

/// What a consumer can be told: that the handler was invoked, or what one pull
/// on the body stream gave.
#[derive(Debug, PartialEq, Eq)]
pub enum Input<'a> {
    /// The handler was invoked.
    Invoked,
    /// The pull gave a chunk.
    Chunk(&'a [u8]),
    /// The pull failed; the text describes the failure.
    ReadError(String),
    /// The pull found the end of the stream.
    EndOfStream,
}

impl<'a> Input<'a> {
    /// The number of bytes that the input brings: the length of a chunk, and
    /// nothing for any other input.
    pub open spec fn size(&self) -> usize {
        match self {
            Input::Chunk(bytes) => bytes.len(),
            _ => 0,
        }
    }
}

impl<'a> View for Input<'a> {
    type V = Signal;

    open spec fn view(&self) -> Signal {
        match self {
            Input::Invoked => Signal::Invoked,
            Input::Chunk(bytes) => Signal::Chunk(bytes@),
            Input::ReadError(detail) => Signal::ReadError(detail@),
            Input::EndOfStream => Signal::EndOfStream,
        }
    }
}

/// A telemetry event, for the driver to hand to its log sink.
#[derive(Debug, PartialEq, Eq)]
pub enum Event {
    /// The upload began.
    Started,
    /// A chunk was counted; `total` is the running total after it.
    Progress { total: u128 },
    /// The stream ended; `total` is the final total.
    Finished { total: u128 },
    /// A pull failed; `detail` describes the failure.
    ReadFailed { detail: String },
}

impl View for Event {
    type V = Notice;

    open spec fn view(&self) -> Notice {
        match self {
            Event::Started => Notice::Started,
            Event::Progress { total } => Notice::Progress { total: *total as nat },
            Event::Finished { total } => Notice::Finished { total: *total as nat },
            Event::ReadFailed { detail } => Notice::ReadFailed { detail: detail@ },
        }
    }
}

impl Event {
    /// The line that the event is logged with.
    pub open spec fn message_spec(&self) -> Seq<char> {
        match self {
            Event::Started => "Started void upload"@,
            Event::Progress { .. } => "Void new frame"@,
            Event::Finished { .. } => "Finished void upload"@,
            Event::ReadFailed { .. } => "failed to read frame"@,
        }
    }

    /// The line that the event is logged with.
    pub fn message(&self) -> (line: &'static str)
        ensures
            line@ == self.message_spec(),
    {
        match self {
            Event::Started => "Started void upload",
            Event::Progress { .. } => "Void new frame",
            Event::Finished { .. } => "Finished void upload",
            Event::ReadFailed { .. } => "failed to read frame",
        }
    }
}

/// What a consumer answers to one input.
#[derive(Debug, PartialEq, Eq)]
pub struct Reaction {
    /// The event to emit, if the input caused a transition.
    pub event: Option<Event>,
    /// The response status, on the input that decides it.
    pub status: Option<Status>,
}

impl View for Reaction {
    type V = Output;

    open spec fn view(&self) -> Output {
        Output {
            notice: match self.event {
                Some(event) => Some(event@),
                None => None,
            },
            status: self.status,
        }
    }
}

/// How an upload ended.
#[derive(Debug, Clone, Copy, PartialEq, Eq, Structural)]
pub enum Terminal {
    /// The stream was drained to its end.
    Completed,
    /// A pull failed and the stream was abandoned.
    Failed,
}

/// The outcome of an upload: the bytes consumed and how it ended.
#[derive(Debug, Clone, Copy, PartialEq, Eq, Structural)]
pub struct Outcome {
    /// The bytes consumed: the sum of the lengths of the chunks that were
    /// counted before the upload ended.
    pub total: u128,
    /// How the upload ended.
    pub terminal: Terminal,
}

impl Outcome {
    /// The state that the consumer ended in.
    pub open spec fn state(self) -> State {
        State {
            phase: match self.terminal {
                Terminal::Completed => Phase::Completed,
                Terminal::Failed => Phase::Failed,
            },
            total: self.total as nat,
        }
    }

    /// The response status: success for a drained stream, a server error for
    /// an abandoned one.
    pub open spec fn status_spec(self) -> Status {
        match self.terminal {
            Terminal::Completed => Status::Success,
            Terminal::Failed => Status::ServerError,
        }
    }

    /// The response status: success for a drained stream, a server error for
    /// an abandoned one.
    #[verifier::when_used_as_spec(status_spec)]
    pub fn status(self) -> (status: Status)
        ensures
            status == self.status_spec(),
            Some(status) == self.state().status(),
    {
        match self.terminal {
            Terminal::Completed => Status::Success,
            Terminal::Failed => Status::ServerError,
        }
    }
}

/// The consumer of one upload: a phase and a byte counter.
#[derive(Debug, Clone, Copy, PartialEq, Eq)]
pub struct Consumer {
    phase: Phase,
    total: u128,
}

impl View for Consumer {
    type V = State;

    closed spec fn view(&self) -> State {
        State { phase: self.phase, total: self.total as nat }
    }
}

impl Consumer {
    /// A consumer in `Start`, with nothing counted.
    pub fn new() -> (consumer: Consumer)
        ensures
            consumer@ == State::initial(),
    {
        Consumer { phase: Phase::Start, total: 0 }
    }

    /// The current phase.
    pub fn phase(&self) -> (phase: Phase)
        ensures
            phase == self@.phase,
    {
        self.phase
    }

    /// The bytes counted so far.
    pub fn total(&self) -> (total: u128)
        ensures
            total == self@.total,
    {
        self.total
    }

    /// The outcome of the upload, once it has ended.
    pub fn outcome(&self) -> (outcome: Option<Outcome>)
        ensures
            outcome is Some <==> self@.is_terminal(),
            outcome is Some ==> outcome->Some_0.state() == self@,
    {
        match self.phase {
            Phase::Completed => Some(Outcome { total: self.total, terminal: Terminal::Completed }),
            Phase::Failed => Some(Outcome { total: self.total, terminal: Terminal::Failed }),
            _ => None,
        }
    }

    /// True where the counter has room for the input: a chunk that is counted
    /// must not take the total past `u128::MAX`.
    pub open spec fn has_room_spec(&self, input: &Input<'_>) -> bool {
        self@.phase == Phase::Draining && input is Chunk ==> self@.total + input.size()
            <= u128::MAX
    }

    /// Whether the counter has room for the input, which is what [`Self::step`]
    /// asks of it.
    #[verifier::when_used_as_spec(has_room_spec)]
    pub fn has_room(&self, input: &Input<'_>) -> (room: bool)
        ensures
            room == self.has_room_spec(input),
    {
        match (self.phase, input) {
            (Phase::Draining, Input::Chunk(bytes)) => bytes.len() as u128 <= u128::MAX
                - self.total,
            _ => true,
        }
    }

    /// Takes one input: moves to the next state and answers with the event to
    /// emit and, on the transition into a terminal phase, the response status.
    /// An input that the current phase has no transition for changes nothing
    /// and is answered with an empty reaction.
    pub fn step(&mut self, input: Input<'_>) -> (reaction: Reaction)
        requires
            old(self).has_room(&input),
        ensures
            final(self)@ == old(self)@.next(input@),
            reaction@ == old(self)@.output(input@),
    {
        match (self.phase, input) {
            (Phase::Start, Input::Invoked) => {
                self.phase = Phase::Draining;
                Reaction { event: Some(Event::Started), status: None }
            },
            (Phase::Draining, Input::Chunk(bytes)) => {
                self.total = self.total + bytes.len() as u128;
                Reaction { event: Some(Event::Progress { total: self.total }), status: None }
            },
            (Phase::Draining, Input::ReadError(detail)) => {
                self.phase = Phase::Failed;
                Reaction {
                    event: Some(Event::ReadFailed { detail }),
                    status: Some(Status::ServerError),
                }
            },
            (Phase::Draining, Input::EndOfStream) => {
                self.phase = Phase::Completed;
                Reaction {
                    event: Some(Event::Finished { total: self.total }),
                    status: Some(Status::Success),
                }
            },
            _ => Reaction { event: None, status: None },
        }
    }
}

} // verus!

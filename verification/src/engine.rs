//! The exchange engine: one request written, one reply collected.
//!
//! An [`Exchange`] never touches the device. It says what is to be done next
//! ([`Exchange::action`]); the caller does it and reports what happened
//! ([`Exchange::step`]). Every read attempt is counted against the retry
//! budget, so an exchange ends after a bounded number of steps: with the
//! complete reply, or with the reason for giving up and the text received so
//! far.

use vstd::prelude::*;
use vstd::string::*;
use crate::error::{ExchangeFailure, Failure, SerialError};
use crate::frame::{decode, decoded, ends_with_terminator, filled, is_terminated, received};
use crate::settings::{RetryBudget, Settings, WaitStrategy};

verus! {

/// Where an exchange stands.
#[derive(Debug, Clone, Copy, PartialEq, Eq, Structural)]
pub enum Phase {
    /// No request has been given yet.
    Idle,
    /// The request is to be written.
    Writing,
    /// The request is written; the next read waits for readiness or for the
    /// pause to pass.
    AwaitingReadiness,
    /// One read is to be made.
    Reading,
    /// The reply is complete.
    Complete,
    /// The exchange gave up.
    Failed,
}

/// What the caller reports to an exchange.
#[derive(Debug, PartialEq, Eq)]
pub enum Event {
    /// These bytes are to be sent.
    Request(Vec<u8>),
    /// The one write call took this many bytes.
    Written(usize),
    /// The write call failed, for this reason.
    WriteFailed(String),
    /// The notifier signalled that there is something to read, or the pause
    /// between two attempts has passed.
    Ready,
    /// The notifier's deadline passed without a signal.
    TimedOut,
    /// The read call returned these bytes; there may be none.
    Data(Vec<u8>),
    /// The read call had nothing to return yet.
    WouldBlock,
    /// The read call failed, for this reason.
    ReadFailed(String),
}

/// An event as contracts speak of it.
pub enum Signal {
    Request(Seq<u8>),
    Written(nat),
    WriteFailed(Seq<char>),
    Ready,
    TimedOut,
    Data(Seq<u8>),
    WouldBlock,
    ReadFailed(Seq<char>),
}

impl View for Event {
    type V = Signal;

    open spec fn view(&self) -> Signal {
        match self {
            Event::Request(payload) => Signal::Request(payload@),
            Event::Written(count) => Signal::Written(*count as nat),
            Event::WriteFailed(cause) => Signal::WriteFailed(cause@),
            Event::Ready => Signal::Ready,
            Event::TimedOut => Signal::TimedOut,
            Event::Data(bytes) => Signal::Data(bytes@),
            Event::WouldBlock => Signal::WouldBlock,
            Event::ReadFailed(cause) => Signal::ReadFailed(cause@),
        }
    }
}

/// Why a read call returned nothing.
#[derive(Debug, PartialEq, Eq)]
pub enum ReadFault {
    /// There was nothing to read yet: the call would have blocked, or its
    /// time ran out.
    WouldBlock,
    /// The call failed, for this reason.
    Failed(String),
}

impl Event {
    /// What is reported of the one write call: the bytes it took, or the
    /// reason for which it failed.
    pub fn from_write(outcome: Result<usize, String>) -> (event: Event)
        ensures
            event@ == match outcome {
                Ok(count) => Signal::Written(count as nat),
                Err(cause) => Signal::WriteFailed(cause@),
            },
    {
        match outcome {
            Ok(count) => Event::Written(count),
            Err(cause) => Event::WriteFailed(cause),
        }
    }

    /// What is reported of one wait on the notifier: whether the transport
    /// became readable before the deadline. A wait that failed is reported
    /// as one whose deadline passed, so that it counts against the budget
    /// like any other attempt that brought nothing.
    pub fn from_wait(outcome: Result<bool, String>) -> (event: Event)
        ensures
            event@ == match outcome {
                Ok(true) => Signal::Ready,
                _ => Signal::TimedOut,
            },
    {
        match outcome {
            Ok(true) => Event::Ready,
            _ => Event::TimedOut,
        }
    }

    /// What is reported of one read call into `buffer`: the bytes that it
    /// brought, that there was nothing to read yet, or the reason for which
    /// it failed.
    pub fn from_read(buffer: Vec<u8>, outcome: Result<usize, ReadFault>) -> (event: Event)
        ensures
            event@ == match outcome {
                Ok(count) => Signal::Data(filled(buffer@, count as nat)),
                Err(ReadFault::WouldBlock) => Signal::WouldBlock,
                Err(ReadFault::Failed(cause)) => Signal::ReadFailed(cause@),
            },
    {
        match outcome {
            Ok(count) => Event::Data(received(buffer, count)),
            Err(ReadFault::WouldBlock) => Event::WouldBlock,
            Err(ReadFault::Failed(cause)) => Event::ReadFailed(cause),
        }
    }
}

/// What the caller is to do next.
#[derive(Debug, Clone, Copy, PartialEq, Eq, Structural)]
pub enum Action {
    /// Nothing: the exchange waits for its request.
    Standby,
    /// Write the whole request in one call, and report `Written` or
    /// `WriteFailed`.
    Write,
    /// Wait on the notifier until the transport is readable or the deadline
    /// passes, and report `Ready` or `TimedOut`.
    AwaitReadiness { deadline_ms: u64 },
    /// Sleep, then report `Ready`.
    Pause { delay_ms: u64 },
    /// Make one read into a buffer of this size, and report `Data`,
    /// `WouldBlock` or `ReadFailed`.
    Read { capacity: usize },
    /// Nothing more: take the outcome.
    Finish,
}

/// The cause that is reported when the write call took less than the whole
/// request.
pub open spec fn short_write_cause() -> Seq<char> {
    "the request was written only in part"@
}

/// An exchange as contracts speak of it.
pub struct ExchangeModel {
    pub phase: Phase,
    pub strategy: WaitStrategy,
    pub capacity: usize,
    pub budget: RetryBudget,
    pub payload: Seq<u8>,
    pub response: Seq<char>,
    pub failure: Option<Failure>,
}

impl ExchangeModel {
    /// An exchange that has not been given its request.
    pub open spec fn fresh(settings: Settings) -> ExchangeModel {
        ExchangeModel {
            phase: Phase::Idle,
            strategy: settings.strategy,
            capacity: settings.buffer_size,
            budget: settings.fresh_budget(),
            payload: Seq::empty(),
            response: Seq::empty(),
            failure: None,
        }
    }

    /// The exchange is over, one way or the other.
    pub open spec fn is_terminal(self) -> bool {
        self.phase == Phase::Complete || self.phase == Phase::Failed
    }

    /// What holds of every exchange that [`Exchange`] can be in.
    pub open spec fn wf(self) -> bool {
        &&& self.budget.attempts <= self.budget.max_attempts
        &&& self.failure is Some <==> self.phase == Phase::Failed
        &&& is_terminated(self.response) <==> self.phase == Phase::Complete
        &&& match self.phase {
            Phase::Idle => self.budget.attempts == 0 && self.response.len() == 0
                && self.payload.len() == 0,
            Phase::Writing => self.budget.attempts == 0 && self.response.len() == 0,
            Phase::AwaitingReadiness | Phase::Reading => !self.budget.exhausted(),
            Phase::Complete => self.budget.attempts >= 1,
            Phase::Failed => match self.failure {
                Some(Failure::Write { .. }) => self.budget.attempts == 0 && self.response.len()
                    == 0,
                Some(Failure::NoResponse) => self.budget.exhausted(),
                Some(Failure::Read { attempts, .. }) => self.budget.exhausted() && attempts
                    == self.budget.attempts && attempts >= 1,
                _ => false,
            },
        }
    }

    /// What the caller is to do in this phase.
    pub open spec fn pending(self) -> Action {
        match self.phase {
            Phase::Idle => Action::Standby,
            Phase::Writing => Action::Write,
            Phase::AwaitingReadiness => match self.strategy {
                WaitStrategy::Notifier => Action::AwaitReadiness {
                    deadline_ms: self.budget.delay_ms,
                },
                WaitStrategy::Sleep => Action::Pause { delay_ms: self.budget.delay_ms },
            },
            Phase::Reading => Action::Read { capacity: self.capacity },
            Phase::Complete | Phase::Failed => Action::Finish,
        }
    }

    /// The exchange gives up for the given reason.
    pub open spec fn failed(self, failure: Failure) -> ExchangeModel {
        ExchangeModel { phase: Phase::Failed, failure: Some(failure), ..self }
    }

    /// The request has been written in full. With a notifier the exchange
    /// waits for its signal; without one it reads at once. Where the budget
    /// allows no attempt at all, the exchange is over.
    pub open spec fn written(self) -> ExchangeModel {
        if self.budget.exhausted() {
            self.failed(Failure::NoResponse)
        } else {
            ExchangeModel {
                phase: match self.strategy {
                    WaitStrategy::Notifier => Phase::AwaitingReadiness,
                    WaitStrategy::Sleep => Phase::Reading,
                },
                ..self
            }
        }
    }

    /// One attempt has passed and the reply is not complete. `fault` is the
    /// I/O error that the attempt met, if it met one. The attempt is
    /// counted; if none is left the exchange gives up, and the reason is the
    /// fault of this last attempt, or that there was no reply.
    pub open spec fn missed(self, fault: Option<Seq<char>>) -> ExchangeModel {
        let budget = self.budget.spent();
        let counted = ExchangeModel { budget, ..self };
        if !budget.exhausted() {
            ExchangeModel { phase: Phase::AwaitingReadiness, ..counted }
        } else {
            counted.failed(
                match fault {
                    Some(cause) => Failure::Read { attempts: budget.attempts as nat, cause },
                    None => Failure::NoResponse,
                },
            )
        }
    }

    /// A read returned `text`. It is joined to the reply and the attempt is
    /// counted; the exchange is complete if the reply now ends in the
    /// terminator. Outside the reading phase nothing changes.
    pub open spec fn received(self, text: Seq<char>) -> ExchangeModel {
        if self.phase != Phase::Reading {
            self
        } else {
            let grown = ExchangeModel { response: self.response + text, ..self };
            if is_terminated(grown.response) {
                ExchangeModel { phase: Phase::Complete, budget: self.budget.spent(), ..grown }
            } else {
                grown.missed(None)
            }
        }
    }

    /// The exchange after one event. An event that the phase does not wait
    /// for changes nothing.
    pub open spec fn step(self, signal: Signal) -> ExchangeModel {
        match (self.phase, signal) {
            (Phase::Idle, Signal::Request(payload)) => ExchangeModel {
                phase: Phase::Writing,
                payload,
                ..self
            },
            (Phase::Writing, Signal::Written(count)) => if count < self.payload.len() {
                self.failed(Failure::Write { cause: short_write_cause() })
            } else {
                self.written()
            },
            (Phase::Writing, Signal::WriteFailed(cause)) => self.failed(Failure::Write { cause }),
            (Phase::AwaitingReadiness, Signal::Ready) => ExchangeModel {
                phase: Phase::Reading,
                ..self
            },
            (Phase::AwaitingReadiness, Signal::TimedOut) => self.missed(None),
            (Phase::Reading, Signal::Data(bytes)) => if bytes.len() > 0 {
                self.received(decoded(bytes))
            } else {
                self.missed(None)
            },
            (Phase::Reading, Signal::WouldBlock) => self.missed(None),
            (Phase::Reading, Signal::ReadFailed(cause)) => self.missed(Some(cause)),
            _ => self,
        }
    }

    /// The exchange after a run of events, first to last.
    pub open spec fn run(self, signals: Seq<Signal>) -> ExchangeModel
        decreases signals.len(),
    {
        if signals.len() == 0 {
            self
        } else {
            self.run(signals.drop_last()).step(signals.last())
        }
    }
}

/// One exchange: its phase, its request, the reply so far, and what is left
/// of its retry budget.
pub struct Exchange {
    phase: Phase,
    strategy: WaitStrategy,
    capacity: usize,
    budget: RetryBudget,
    payload: Vec<u8>,
    response: String,
    failure: Option<SerialError>,
}

impl View for Exchange {
    type V = ExchangeModel;

    closed spec fn view(&self) -> ExchangeModel {
        ExchangeModel {
            phase: self.phase,
            strategy: self.strategy,
            capacity: self.capacity,
            budget: self.budget,
            payload: self.payload@,
            response: self.response@,
            failure: match self.failure {
                Some(error) => Some(error@),
                None => None,
            },
        }
    }
}

impl Exchange {
    #[verifier::type_invariant]
    spec fn well_formed(self) -> bool {
        self@.wf()
    }

    /// An exchange under the given settings, waiting for its request.
    pub fn new(settings: Settings) -> (exchange: Exchange)
        ensures
            exchange@ == ExchangeModel::fresh(settings),
            exchange@.wf(),
    {
        Exchange {
            phase: Phase::Idle,
            strategy: settings.strategy,
            capacity: settings.buffer_size,
            budget: settings.budget(),
            payload: Vec::new(),
            response: String::new(),
            failure: None,
        }
    }

    /// What the caller is to do next.
    pub fn action(&self) -> (action: Action)
        ensures
            action == self@.pending(),
    {
        match self.phase {
            Phase::Idle => Action::Standby,
            Phase::Writing => Action::Write,
            Phase::AwaitingReadiness => match self.strategy {
                WaitStrategy::Notifier => Action::AwaitReadiness {
                    deadline_ms: self.budget.delay_ms,
                },
                WaitStrategy::Sleep => Action::Pause { delay_ms: self.budget.delay_ms },
            },
            Phase::Reading => Action::Read { capacity: self.capacity },
            Phase::Complete | Phase::Failed => Action::Finish,
        }
    }

    /// Where the exchange stands.
    pub fn phase(&self) -> (phase: Phase)
        ensures
            phase == self@.phase,
    {
        self.phase
    }

    /// Whether the exchange is over.
    pub fn is_terminal(&self) -> (over: bool)
        ensures
            over == self@.is_terminal(),
    {
        match self.phase {
            Phase::Complete | Phase::Failed => true,
            _ => false,
        }
    }

    /// The retry budget as it stands: attempts made, attempts allowed, and
    /// the pause between them.
    pub fn budget(&self) -> (budget: RetryBudget)
        ensures
            budget == self@.budget,
    {
        self.budget
    }

    /// The read attempts made so far.
    pub fn attempts(&self) -> (attempts: usize)
        ensures
            attempts == self@.budget.attempts,
    {
        self.budget.attempts
    }

    /// The bytes of the request.
    pub fn payload(&self) -> (payload: &Vec<u8>)
        ensures
            payload@ == self@.payload,
    {
        &self.payload
    }

    /// The reply as far as it has arrived.
    pub fn response(&self) -> (response: &str)
        ensures
            response@ == self@.response,
    {
        self.response.as_str()
    }

    /// Gives up for the given reason.
    fn fail(self, error: SerialError) -> (next: Exchange)
        requires
            self@.failed(error@).wf(),
        ensures
            next@ == self@.failed(error@),
    {
        let Exchange { phase: _, strategy, capacity, budget, payload, response, failure: _ } = self;
        Exchange {
            phase: Phase::Failed,
            strategy,
            capacity,
            budget,
            payload,
            response,
            failure: Some(error),
        }
    }

    /// Moves to another phase, with nothing else changed.
    fn enter(self, phase: Phase) -> (next: Exchange)
        requires
            (ExchangeModel { phase, ..self@ }).wf(),
        ensures
            next@ == (ExchangeModel { phase, ..self@ }),
    {
        let Exchange { phase: _, strategy, capacity, budget, payload, response, failure } = self;
        Exchange { phase, strategy, capacity, budget, payload, response, failure }
    }

    /// Takes the request.
    fn accept(self, payload: Vec<u8>) -> (next: Exchange)
        requires
            self@.phase == Phase::Idle,
        ensures
            next@ == self@.step(Signal::Request(payload@)),
    {
        proof {
            use_type_invariant(&self);
        }
        let Exchange { phase: _, strategy, capacity, budget, payload: _, response, failure } = self;
        Exchange { phase: Phase::Writing, strategy, capacity, budget, payload, response, failure }
    }

    /// The write call took `count` bytes.
    fn wrote(self, count: usize) -> (next: Exchange)
        requires
            self@.phase == Phase::Writing,
        ensures
            next@ == self@.step(Signal::Written(count as nat)),
    {
        proof {
            use_type_invariant(&self);
        }
        if count < self.payload.len() {
            self.fail(SerialError::WriteError("the request was written only in part".to_owned()))
        } else if self.budget.is_exhausted() {
            self.fail(SerialError::NoResponse)
        } else {
            match self.strategy {
                WaitStrategy::Notifier => self.enter(Phase::AwaitingReadiness),
                WaitStrategy::Sleep => self.enter(Phase::Reading),
            }
        }
    }

    /// One attempt passed without completing the reply.
    fn miss(self, fault: Option<String>) -> (next: Exchange)
        requires
            self@.phase == Phase::AwaitingReadiness || self@.phase == Phase::Reading,
        ensures
            next@ == self@.missed(
                match fault {
                    Some(cause) => Some(cause@),
                    None => None,
                },
            ),
    {
        proof {
            use_type_invariant(&self);
        }
        let Exchange { phase: _, strategy, capacity, budget, payload, response, failure: _ } = self;
        let mut budget = budget;
        budget.spend();
        if !budget.is_exhausted() {
            Exchange {
                phase: Phase::AwaitingReadiness,
                strategy,
                capacity,
                budget,
                payload,
                response,
                failure: None,
            }
        } else {
            let error = match fault {
                Some(cause) => SerialError::ReadError(budget.attempts, cause),
                None => SerialError::NoResponse,
            };
            Exchange {
                phase: Phase::Failed,
                strategy,
                capacity,
                budget,
                payload,
                response,
                failure: Some(error),
            }
        }
    }

    /// Takes the text of one read. It is joined to the reply and the attempt
    /// is counted. If the reply now ends in the terminator the exchange is
    /// complete; if not, it goes on while attempts are left. An exchange
    /// that is not reading takes nothing.
    pub fn receive(self, text: &str) -> (next: Exchange)
        ensures
            next@ == self@.received(text@),
            next@.wf(),
    {
        proof {
            use_type_invariant(&self);
        }
        match self.phase {
            Phase::Reading => {
                let Exchange {
                    phase: _,
                    strategy,
                    capacity,
                    budget,
                    payload,
                    response,
                    failure: _,
                } = self;
                let mut response = response;
                response.append(text);
                let mut budget = budget;
                budget.spend();
                let phase = if ends_with_terminator(response.as_str()) {
                    Phase::Complete
                } else if budget.is_exhausted() {
                    Phase::Failed
                } else {
                    Phase::AwaitingReadiness
                };
                let failure = match phase {
                    Phase::Failed => Some(SerialError::NoResponse),
                    _ => None,
                };
                Exchange { phase, strategy, capacity, budget, payload, response, failure }
            },
            _ => self,
        }
    }

    /// Takes one event and moves on. An event that the phase does not wait
    /// for changes nothing.
    pub fn step(self, event: Event) -> (next: Exchange)
        ensures
            next@ == self@.step(event@),
            next@.wf(),
    {
        proof {
            use_type_invariant(&self);
        }
        match self.phase {
            Phase::Idle => match event {
                Event::Request(payload) => self.accept(payload),
                _ => self,
            },
            Phase::Writing => match event {
                Event::Written(count) => self.wrote(count),
                Event::WriteFailed(cause) => self.fail(SerialError::WriteError(cause)),
                _ => self,
            },
            Phase::AwaitingReadiness => match event {
                Event::Ready => self.enter(Phase::Reading),
                Event::TimedOut => self.miss(None),
                _ => self,
            },
            Phase::Reading => match event {
                Event::Data(bytes) => {
                    if bytes.len() > 0 {
                        let text = decode(bytes.as_slice());
                        self.receive(text.as_str())
                    } else {
                        self.miss(None)
                    }
                },
                Event::WouldBlock => self.miss(None),
                Event::ReadFailed(cause) => self.miss(Some(cause)),
                _ => self,
            },
            Phase::Complete | Phase::Failed => self,
        }
    }

    /// The outcome of an exchange that is over: the complete reply, or the
    /// reason for giving up with the text received until then. An exchange
    /// that is still under way has none.
    pub fn outcome(self) -> (result: Option<Result<String, ExchangeFailure>>)
        ensures
            match result {
                None => !self@.is_terminal(),
                Some(Ok(reply)) => self@.phase == Phase::Complete && reply@ == self@.response,
                Some(Err(failure)) => self@.phase == Phase::Failed && self@.failure == Some(
                    failure.error@,
                ) && failure.partial@ == self@.response,
            },
    {
        proof {
            use_type_invariant(&self);
        }
        let Exchange { phase, strategy: _, capacity: _, budget: _, payload: _, response, failure } =
            self;
        match phase {
            Phase::Complete => Some(Ok(response)),
            Phase::Failed => match failure {
                Some(error) => Some(Err(ExchangeFailure { error, partial: response })),
                None => None,
            },
            _ => None,
        }
    }
}

} // verus!

//! What holds of every exchange, whatever the transport does.
//!
//! The laws speak of [`ExchangeModel`], the value that every contract of
//! [`crate::engine::Exchange`] is stated over, and of runs of events.

use vstd::prelude::*;
use vstd::utf8::*;
use crate::engine::{ExchangeModel, Phase, Signal};
use crate::error::Failure;
use crate::frame::{
    decoded,
    is_terminated,
    lemma_decoded_line,
    TERMINATOR,
};
use crate::settings::{Settings, WaitStrategy};

verus! {

/// `signal` reports how a read call ended.
pub open spec fn is_read_outcome(signal: Signal) -> bool {
    signal is Data || signal is WouldBlock || signal is ReadFailed
}

/// `signal` ends one attempt: the notifier's deadline passed, or a read call
/// returned.
pub open spec fn ends_attempt(signal: Signal) -> bool {
    signal is TimedOut || is_read_outcome(signal)
}

/// Every one of `outcomes` ends one attempt.
pub open spec fn all_end_attempts(outcomes: Seq<Signal>) -> bool {
    forall|i: int| 0 <= i < outcomes.len() ==> ends_attempt(#[trigger] outcomes[i])
}

/// The text that one attempt brings: the decoded bytes of a read that
/// returned some, and nothing otherwise.
pub open spec fn text_of(outcome: Signal) -> Seq<char> {
    match outcome {
        Signal::Data(bytes) => decoded(bytes),
        _ => Seq::empty(),
    }
}

/// The texts of the outcomes, joined first to last.
pub open spec fn gathered(outcomes: Seq<Signal>) -> Seq<char>
    decreases outcomes.len(),
{
    if outcomes.len() == 0 {
        Seq::empty()
    } else {
        gathered(outcomes.drop_last()) + text_of(outcomes.last())
    }
}

/// The events of a caller that makes one attempt after another. A timeout
/// stands for itself; before each read outcome stands the `Ready` that ended
/// the wait for it.
pub open spec fn paced(outcomes: Seq<Signal>) -> Seq<Signal>
    decreases outcomes.len(),
{
    if outcomes.len() == 0 {
        Seq::empty()
    } else if outcomes.last() is TimedOut {
        paced(outcomes.drop_last()).push(Signal::TimedOut)
    } else {
        paced(outcomes.drop_last()).push(Signal::Ready).push(outcomes.last())
    }
}

/// Joined to `response`, the outcomes before the last one never make a text
/// that ends in the terminator.
pub open spec fn unterminated_before_last(response: Seq<char>, outcomes: Seq<Signal>) -> bool {
    forall|k: int|
        0 <= k < outcomes.len() ==> !is_terminated(response + #[trigger] gathered(outcomes.take(k)))
}

/// The attempts that the exchange may still make.
pub open spec fn attempts_left(exchange: ExchangeModel) -> nat {
    (exchange.budget.max_attempts - exchange.budget.attempts) as nat
}

/// The exchange is ready for the attempts: it waits for a read or is about
/// to make one, and if it is about to make one, the first outcome is that of
/// a read.
pub open spec fn awaits(exchange: ExchangeModel, outcomes: Seq<Signal>) -> bool {
    ||| exchange.phase == Phase::AwaitingReadiness
    ||| exchange.phase == Phase::Reading && (outcomes.len() > 0 ==> is_read_outcome(outcomes[0]))
}

/// The reason for which an exchange gives up after `last`, the outcome of
/// its final attempt: the I/O error of that attempt, or else that no reply
/// came.
pub open spec fn exhaustion(exchange: ExchangeModel, last: Signal) -> Failure {
    match last {
        Signal::ReadFailed(cause) => Failure::Read {
            attempts: exchange.budget.max_attempts as nat,
            cause,
        },
        _ => Failure::NoResponse,
    }
}

/// No event leads out of what holds of every exchange.
pub proof fn step_preserves_wf(exchange: ExchangeModel, signal: Signal)
    requires
        exchange.wf(),
    ensures
        exchange.step(signal).wf(),
{
}

/// An exchange that is over stays as it is, whatever is reported to it.
pub proof fn terminal_is_final(exchange: ExchangeModel, signal: Signal)
    requires
        exchange.is_terminal(),
    ensures
        exchange.step(signal) == exchange,
{
}

/// An exchange is over for one of three reasons and no other: the reply is
/// complete; the request could not be written, before any read was tried;
/// or every attempt of the budget is used up, with the reply still
/// unfinished.
pub proof fn outcome_has_a_reason(exchange: ExchangeModel)
    requires
        exchange.wf(),
        exchange.is_terminal(),
    ensures
        ({
            ||| {
                &&& exchange.phase == Phase::Complete
                &&& exchange.failure is None
                &&& is_terminated(exchange.response)
            }
            ||| {
                &&& exchange.phase == Phase::Failed
                &&& exchange.failure is Some
                &&& exchange.failure->Some_0 is Write
                &&& exchange.budget.attempts == 0
            }
            ||| {
                &&& exchange.phase == Phase::Failed
                &&& exchange.failure is Some
                &&& exchange.failure->Some_0 is NoResponse || exchange.failure->Some_0 is Read
                &&& exchange.budget.exhausted()
                &&& !is_terminated(exchange.response)
            }
        }),
{
}

/// Nothing that has arrived is dropped: whatever is reported, the reply
/// afterwards begins with the reply before.
pub proof fn step_keeps_what_arrived(exchange: ExchangeModel, signal: Signal)
    ensures
        exchange.response.is_prefix_of(exchange.step(signal).response),
{
}

/// `signal` answers what the exchange asked for.
pub open spec fn answers(exchange: ExchangeModel, signal: Signal) -> bool {
    match exchange.phase {
        Phase::Idle => signal is Request,
        Phase::Writing => signal is Written || signal is WriteFailed,
        Phase::AwaitingReadiness => signal is Ready || signal is TimedOut,
        Phase::Reading => is_read_outcome(signal),
        Phase::Complete | Phase::Failed => false,
    }
}

/// Every one of `signals`, taken first to last, answers what the exchange
/// asked for at that point.
pub open spec fn answered_in_turn(start: ExchangeModel, signals: Seq<Signal>) -> bool
    decreases signals.len(),
{
    signals.len() == 0 || (answered_in_turn(start, signals.drop_last()) && answers(
        start.run(signals.drop_last()),
        signals.last(),
    ))
}

/// A bound on the events that an exchange can still take before it is over:
/// a wait and a read for each attempt that is left, and the request and its
/// writing where they are still to come.
pub open spec fn events_left(exchange: ExchangeModel) -> nat {
    let attempts = attempts_left(exchange);
    match exchange.phase {
        Phase::Idle => 2 * attempts + 3,
        Phase::Writing => 2 * attempts + 2,
        Phase::AwaitingReadiness => 2 * attempts,
        Phase::Reading => (2 * attempts - 1) as nat,
        Phase::Complete | Phase::Failed => 0,
    }
}

/// Every event that answers what the exchange asked for brings it nearer to
/// its end.
pub proof fn step_makes_progress(exchange: ExchangeModel, signal: Signal)
    requires
        exchange.wf(),
        answers(exchange, signal),
    ensures
        events_left(exchange.step(signal)) < events_left(exchange),
{
}

/// An exchange never hangs. However the transport behaves, a caller that
/// answers what the exchange asks for is told to finish after a number of
/// events that the budget bounds: at most two for each attempt and three
/// more.
pub proof fn exchange_ends_within_bound(start: ExchangeModel, signals: Seq<Signal>)
    requires
        start.wf(),
        answered_in_turn(start, signals),
    ensures
        start.run(signals).wf(),
        signals.len() + events_left(start.run(signals)) <= events_left(start),
        signals.len() <= 2 * start.budget.max_attempts + 3,
        signals.len() == events_left(start) ==> start.run(signals).is_terminal(),
    decreases signals.len(),
{
    if signals.len() > 0 {
        let before = signals.drop_last();
        exchange_ends_within_bound(start, before);
        step_makes_progress(start.run(before), signals.last());
    }
}

/// One event counts as one attempt at most. It counts exactly when it ends
/// an attempt: the notifier's deadline passed while the exchange waited, or
/// a read call returned while the exchange was reading. The signal that
/// wakes the exchange counts nothing, so a wake-up followed by an empty read
/// is one attempt, not two.
pub proof fn step_counts_once(exchange: ExchangeModel, signal: Signal)
    requires
        exchange.wf(),
    ensures
        exchange.step(signal).budget.attempts == exchange.budget.attempts + (if (exchange.phase
            == Phase::AwaitingReadiness && signal is TimedOut) || (exchange.phase
            == Phase::Reading && is_read_outcome(signal)) {
            1int
        } else {
            0int
        }),
        exchange.step(signal).budget.max_attempts == exchange.budget.max_attempts,
{
}

/// A read that returns no bytes is taken exactly as a read that would
/// block: it never completes the exchange, and it counts as one attempt.
pub proof fn empty_read_is_would_block(exchange: ExchangeModel)
    requires
        exchange.wf(),
    ensures
        exchange.step(Signal::Data(Seq::empty())) == exchange.step(Signal::WouldBlock),
        exchange.phase != Phase::Complete ==> exchange.step(Signal::Data(Seq::empty())).phase
            != Phase::Complete,
        exchange.phase == Phase::Reading ==> exchange.step(
            Signal::Data(Seq::empty()),
        ).budget.attempts == exchange.budget.attempts + 1,
{
}

/// Running a sequence of events with one more at its end is running the
/// sequence and then taking the one.
proof fn lemma_run_one_more(exchange: ExchangeModel, signals: Seq<Signal>, next: Signal)
    ensures
        exchange.run(signals.push(next)) == exchange.run(signals).step(next),
{
    assert(signals.push(next).drop_last() =~= signals);
}

/// Running a sequence of events with two more at its end is running the
/// sequence and then taking the two.
proof fn lemma_run_two_more(
    exchange: ExchangeModel,
    signals: Seq<Signal>,
    first: Signal,
    second: Signal,
)
    ensures
        exchange.run(signals.push(first).push(second)) == exchange.run(signals).step(first).step(
            second,
        ),
{
    lemma_run_one_more(exchange, signals, first);
    lemma_run_one_more(exchange, signals.push(first), second);
}

/// How a run of attempts ends, as long as the budget covers them and no
/// reply is complete before the last of them.
proof fn lemma_paced_run(start: ExchangeModel, outcomes: Seq<Signal>)
    requires
        start.wf(),
        awaits(start, outcomes),
        all_end_attempts(outcomes),
        outcomes.len() <= attempts_left(start),
        unterminated_before_last(start.response, outcomes),
    ensures
        ({
            let end = start.run(paced(outcomes));
            let total = start.response + gathered(outcomes);
            &&& end.wf()
            &&& end.response == total
            &&& end.budget.attempts == start.budget.attempts + outcomes.len()
            &&& end.budget.max_attempts == start.budget.max_attempts
            &&& outcomes.len() == 0 ==> end == start
            &&& outcomes.len() > 0 ==> end.phase == if is_terminated(total) {
                Phase::Complete
            } else if outcomes.len() == attempts_left(start) {
                Phase::Failed
            } else {
                Phase::AwaitingReadiness
            }
            &&& outcomes.len() > 0 && end.phase == Phase::Failed ==> end.failure == Some(
                exhaustion(start, outcomes.last()),
            )
        }),
    decreases outcomes.len(),
{
    if outcomes.len() > 0 {
        let before = outcomes.drop_last();
        assert(unterminated_before_last(start.response, before)) by {
            assert forall|k: int| 0 <= k < before.len() implies !is_terminated(
                start.response + #[trigger] gathered(before.take(k)),
            ) by {
                assert(before.take(k) =~= outcomes.take(k));
            }
        }
        lemma_paced_run(start, before);
        if outcomes.last() is TimedOut {
            lemma_run_one_more(start, paced(before), Signal::TimedOut);
        } else {
            lemma_run_two_more(start, paced(before), Signal::Ready, outcomes.last());
        }
    }
}

/// Nothing that is read is lost or moved. After any run of attempts that the
/// budget covers, with no reply complete before the last of them, the reply
/// is what the exchange held before with the text of every read joined to
/// it, in the order of the reads; every attempt has been counted; and the
/// exchange is complete exactly if that reply ends in the terminator.
pub proof fn reads_accumulate_in_order(start: ExchangeModel, outcomes: Seq<Signal>)
    requires
        start.wf(),
        awaits(start, outcomes),
        all_end_attempts(outcomes),
        0 < outcomes.len() <= attempts_left(start),
        unterminated_before_last(start.response, outcomes),
    ensures
        start.run(paced(outcomes)).response == start.response + gathered(outcomes),
        start.run(paced(outcomes)).budget.attempts == start.budget.attempts + outcomes.len(),
        start.run(paced(outcomes)).phase == Phase::Complete <==> is_terminated(
            start.response + gathered(outcomes),
        ),
{
    lemma_paced_run(start, outcomes);
}

/// A transport that never ends its reply uses up the budget, and no more.
/// While attempts are left the exchange goes on waiting. With the attempt
/// that uses up the budget it gives up, every attempt counted: because no
/// reply came or, if that last attempt was a read that met an I/O error,
/// because of that error. What had arrived is kept.
pub proof fn unterminated_reply_exhausts_budget(start: ExchangeModel, outcomes: Seq<Signal>)
    requires
        start.wf(),
        awaits(start, outcomes),
        all_end_attempts(outcomes),
        0 < outcomes.len() <= attempts_left(start),
        unterminated_before_last(start.response, outcomes),
        !is_terminated(start.response + gathered(outcomes)),
    ensures
        ({
            let end = start.run(paced(outcomes));
            &&& end.response == start.response + gathered(outcomes)
            &&& end.budget.attempts == start.budget.attempts + outcomes.len()
            &&& outcomes.len() < attempts_left(start) ==> end.phase == Phase::AwaitingReadiness
            &&& outcomes.len() == attempts_left(start) ==> {
                &&& end.phase == Phase::Failed
                &&& end.budget.attempts == end.budget.max_attempts
                &&& end.failure == Some(exhaustion(start, outcomes.last()))
                &&& !(outcomes.last() is ReadFailed) ==> end.failure == Some(Failure::NoResponse)
            }
        }),
{
    lemma_paced_run(start, outcomes);
}

/// The events of a transport that answers the request with one read.
pub open spec fn one_read_exchange(
    strategy: WaitStrategy,
    request: Seq<u8>,
    reply: Seq<u8>,
) -> Seq<Signal> {
    match strategy {
        WaitStrategy::Sleep => seq![
            Signal::Request(request),
            Signal::Written(request.len()),
            Signal::Data(reply),
        ],
        WaitStrategy::Notifier => seq![
            Signal::Request(request),
            Signal::Written(request.len()),
            Signal::Ready,
            Signal::Data(reply),
        ],
    }
}

/// A transport that echoes the request and a line feed in its first read
/// completes the exchange with that very text, in one attempt.
pub proof fn echo_completes_in_one_attempt(settings: Settings, payload: Seq<char>)
    requires
        settings.max_attempts > 0,
    ensures
        ({
            let request = encode_utf8(payload);
            let reply = request + seq![TERMINATOR];
            let end = ExchangeModel::fresh(settings).run(
                one_read_exchange(settings.strategy, request, reply),
            );
            &&& end.phase == Phase::Complete
            &&& end.response == payload + seq!['\n']
            &&& end.budget.attempts == 1
        }),
{
    let request = encode_utf8(payload);
    let reply = request + seq![TERMINATOR];
    let idle = ExchangeModel::fresh(settings);
    let signals = one_read_exchange(settings.strategy, request, reply);
    lemma_decoded_line(payload);
    match settings.strategy {
        WaitStrategy::Sleep => {
            let base = seq![Signal::Request(request)];
            assert(base.drop_last() =~= Seq::<Signal>::empty());
            lemma_run_two_more(idle, base, Signal::Written(request.len()), Signal::Data(reply));
            assert(signals =~= base.push(Signal::Written(request.len())).push(
                Signal::Data(reply),
            ));
        },
        WaitStrategy::Notifier => {
            let base = seq![Signal::Request(request), Signal::Written(request.len())];
            lemma_run_two_more(
                idle,
                Seq::<Signal>::empty(),
                Signal::Request(request),
                Signal::Written(request.len()),
            );
            assert(base =~= Seq::<Signal>::empty().push(Signal::Request(request)).push(
                Signal::Written(request.len()),
            ));
            lemma_run_two_more(idle, base, Signal::Ready, Signal::Data(reply));
            assert(signals =~= base.push(Signal::Ready).push(Signal::Data(reply)));
        },
    }
}

} // verus!

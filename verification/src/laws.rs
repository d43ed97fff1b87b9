//! What holds of every run of the consumer.

use crate::consumer::{Notice, Output, Phase, Signal, State};
use crate::status::Status;
use crate::stream::{
    chunk_signals, leading_bytes, leading_chunks, lemma_leading_split, session, sum_of_lengths,
};
use vstd::prelude::*;

verus! {

/// A signal that the phase has no transition for is ignored: the state stays
/// and nothing is given out. One that it has a transition for is answered
/// with an event. A status is given out on the transitions that enter a
/// terminal phase, and on no other; it is the status of the state entered.
pub proof fn lemma_transitions(state: State, signal: Signal)
    ensures
        !state.reacts_to(signal) ==> state.next(signal) == state,
        !state.reacts_to(signal) ==> state.output(signal) == (Output {
            notice: None,
            status: None,
        }),
        state.reacts_to(signal) ==> state.output(signal).notice is Some,
        state.output(signal).status is Some <==> !state.is_terminal() && state.next(
            signal,
        ).is_terminal(),
        state.output(signal).status is Some ==> state.output(signal).status == state.next(
            signal,
        ).status(),
        state.next(signal).total >= state.total,
{
}

/// Running over two sequences in a row is running over the first and then,
/// from where that ended, over the second; the events come out in that order.
pub proof fn lemma_run_concat(start: State, first: Seq<Signal>, second: Seq<Signal>)
    ensures
        start.run(first + second) == start.run(first).run(second),
        start.trace(first + second) == start.trace(first) + start.run(first).trace(second),
    decreases second.len(),
{
    if second.len() == 0 {
        assert(first + second =~= first);
        assert(start.trace(first) + start.run(first).trace(second) =~= start.trace(first));
    } else {
        assert((first + second).drop_last() =~= first + second.drop_last());
        assert((first + second).last() == second.last());
        lemma_run_concat(start, first, second.drop_last());
        let before = start.run(first).run(second.drop_last());
        match before.output(second.last()).notice {
            Some(notice) => {
                assert(start.trace(first + second) =~= start.trace(first) + start.run(
                    first,
                ).trace(second));
            },
            None => {},
        }
    }
}

/// A terminal state is final: whatever comes after, the state stays as it is
/// and no event is given out.
pub proof fn lemma_terminal_absorbs(state: State, signals: Seq<Signal>)
    requires
        state.is_terminal(),
    ensures
        state.run(signals) == state,
        state.trace(signals) == Seq::<Notice>::empty(),
    decreases signals.len(),
{
    if signals.len() > 0 {
        lemma_terminal_absorbs(state, signals.drop_last());
    }
}

/// The total never goes down.
pub proof fn lemma_total_monotonic(state: State, signals: Seq<Signal>)
    ensures
        state.run(signals).total >= state.total,
    decreases signals.len(),
{
    if signals.len() > 0 {
        lemma_total_monotonic(state, signals.drop_last());
    }
}

/// While draining, chunks are counted one by one: after any sequence of chunks
/// the consumer is still draining and the total has grown by the sum of their
/// lengths. Each chunk is answered with a progress event.
pub proof fn lemma_chunks_are_counted(total: nat, chunks: Seq<Seq<u8>>)
    ensures
        (State { phase: Phase::Draining, total }).run(chunk_signals(chunks)) == (State {
            phase: Phase::Draining,
            total: total + sum_of_lengths(chunks),
        }),
        (State { phase: Phase::Draining, total }).trace(chunk_signals(chunks)).len()
            == chunks.len(),
        leading_chunks(chunk_signals(chunks)) == chunks.len(),
        leading_bytes(chunk_signals(chunks)) == sum_of_lengths(chunks),
    decreases chunks.len(),
{
    let signals = chunk_signals(chunks);
    if chunks.len() == 0 {
        assert(leading_bytes(signals) == 0);
    } else {
        let k = chunks.len() - 1;
        lemma_chunks_are_counted(total, chunks.drop_last());
        assert(signals.drop_last() =~= chunk_signals(chunks.drop_last()));
        lemma_leading_split(signals, k);
        assert(signals.take(k) =~= chunk_signals(chunks.drop_last()));
        assert(signals.skip(k) =~= seq![signals[k]]);
        assert(signals.skip(k).drop_first() =~= Seq::<Signal>::empty());
        assert(leading_chunks(Seq::<Signal>::empty()) == 0);
        assert(leading_bytes(Seq::<Signal>::empty()) == 0);
    }
}

/// Accounting: a body whose chunks all arrive is drained to completion, the
/// final total is the sum of the chunk lengths, and the status is success.
pub proof fn lemma_accounting(chunks: Seq<Seq<u8>>)
    ensures
        State::initial().run(session(chunk_signals(chunks))) == (State {
            phase: Phase::Completed,
            total: sum_of_lengths(chunks),
        }),
        State::initial().run(session(chunk_signals(chunks))).status() == Some(Status::Success),
        leading_chunks(chunk_signals(chunks)) == chunks.len(),
        leading_bytes(chunk_signals(chunks)) == sum_of_lengths(chunks),
{
    let invoked = seq![Signal::Invoked];
    let signals = chunk_signals(chunks);
    let draining = State { phase: Phase::Draining, total: 0 };
    assert(State::initial().run(invoked) == draining) by {
        reveal_with_fuel(State::run, 2);
        assert(invoked.drop_last() =~= Seq::<Signal>::empty());
    }
    lemma_chunks_are_counted(0, chunks);
    lemma_run_concat(State::initial(), invoked, signals);
    assert(session(signals).drop_last() =~= invoked + signals);
}

/// Fail-fast: where the pull after `chunks` fails, the upload ends as failed
/// with a server error, and the total is the sum of the lengths of the chunks
/// that came before. Nothing that the stream would have yielded after the
/// failure is taken into account, and no event follows the failure's.
pub proof fn lemma_fail_fast(chunks: Seq<Seq<u8>>, detail: Seq<char>, unread: Seq<Signal>)
    ensures
        ({
            let read = chunk_signals(chunks).push(Signal::ReadError(detail));
            let failed = State { phase: Phase::Failed, total: sum_of_lengths(chunks) };
            &&& State::initial().run(seq![Signal::Invoked] + read) == failed
            &&& State::initial().run(session(read + unread)) == failed
            &&& State::initial().trace(session(read + unread)) == State::initial().trace(
                seq![Signal::Invoked] + read,
            )
            &&& failed.status() == Some(Status::ServerError)
            &&& leading_chunks(read + unread) == chunks.len()
            &&& leading_bytes(read + unread) == sum_of_lengths(chunks)
        }),
{
    let invoked = seq![Signal::Invoked];
    let signals = chunk_signals(chunks);
    let read = signals.push(Signal::ReadError(detail));
    let draining = State { phase: Phase::Draining, total: 0 };
    let failed = State { phase: Phase::Failed, total: sum_of_lengths(chunks) };
    let rest = unread + seq![Signal::EndOfStream];
    assert(State::initial().run(invoked) == draining) by {
        reveal_with_fuel(State::run, 2);
        assert(invoked.drop_last() =~= Seq::<Signal>::empty());
    }
    lemma_chunks_are_counted(0, chunks);
    lemma_run_concat(State::initial(), invoked, signals);
    assert((invoked + read).drop_last() =~= invoked + signals);
    assert(State::initial().run(invoked + read) == failed);
    assert(session(read + unread) =~= (invoked + read) + rest);
    lemma_run_concat(State::initial(), invoked + read, rest);
    lemma_terminal_absorbs(failed, rest);
    assert(State::initial().trace(invoked + read) + Seq::<Notice>::empty()
        =~= State::initial().trace(invoked + read));
    let frames = read + unread;
    let k = chunks.len() as int;
    lemma_leading_split(frames, k);
    assert(frames.take(k) =~= signals);
    assert(frames.skip(k)[0] == Signal::ReadError(detail));
}

/// The statuses given out over a sequence of signals, in order.
pub open spec fn verdicts(start: State, signals: Seq<Signal>) -> Seq<Status>
    decreases signals.len(),
{
    if signals.len() == 0 {
        Seq::empty()
    } else {
        let earlier = verdicts(start, signals.drop_last());
        match start.run(signals.drop_last()).output(signals.last()).status {
            Some(status) => earlier.push(status),
            None => earlier,
        }
    }
}

/// The response status is decided once: over any run that does not begin in a
/// terminal state, a status is given out on the step that enters a terminal
/// phase and on no other, and it is the status that the terminal state stands
/// for.
pub proof fn lemma_status_decided_once(start: State, signals: Seq<Signal>)
    requires
        !start.is_terminal(),
    ensures
        verdicts(start, signals) == match start.run(signals).status() {
            Some(status) => seq![status],
            None => Seq::<Status>::empty(),
        },
    decreases signals.len(),
{
    if signals.len() > 0 {
        lemma_status_decided_once(start, signals.drop_last());
        let before = start.run(signals.drop_last());
        match before.output(signals.last()).status {
            Some(status) => {
                assert(verdicts(start, signals) =~= seq![status]);
            },
            None => {},
        }
    }
}

/// The consumer reads of a chunk its length and nothing else: two chunks of
/// one length lead to the same state and the same event.
pub proof fn lemma_only_the_length_counts(state: State, one: Seq<u8>, other: Seq<u8>)
    requires
        one.len() == other.len(),
    ensures
        state.next(Signal::Chunk(one)) == state.next(Signal::Chunk(other)),
        state.output(Signal::Chunk(one)) == state.output(Signal::Chunk(other)),
{
}

/// One of two uploads that are served at the same time.
pub enum Lane {
    First,
    Second,
}

/// The signals of a schedule that are addressed to one lane, in order.
pub open spec fn lane_signals(schedule: Seq<(Lane, Signal)>, lane: Lane) -> Seq<Signal>
    decreases schedule.len(),
{
    if schedule.len() == 0 {
        Seq::empty()
    } else {
        let earlier = lane_signals(schedule.drop_last(), lane);
        if schedule.last().0 == lane {
            earlier.push(schedule.last().1)
        } else {
            earlier
        }
    }
}

/// Two consumers served in turns: each signal of the schedule goes to the
/// consumer of its lane and leaves the other as it is.
pub open spec fn run_interleaved(first: State, second: State, schedule: Seq<(Lane, Signal)>) -> (
    State,
    State,
)
    decreases schedule.len(),
{
    if schedule.len() == 0 {
        (first, second)
    } else {
        let (a, b) = run_interleaved(first, second, schedule.drop_last());
        match schedule.last().0 {
            Lane::First => (a.next(schedule.last().1), b),
            Lane::Second => (a, b.next(schedule.last().1)),
        }
    }
}

/// Independence: however the signals of two consumers are interleaved, each
/// consumer ends where it would have ended on its own signals alone.
pub proof fn lemma_independence(first: State, second: State, schedule: Seq<(Lane, Signal)>)
    ensures
        run_interleaved(first, second, schedule) == (
            first.run(lane_signals(schedule, Lane::First)),
            second.run(lane_signals(schedule, Lane::Second)),
        ),
    decreases schedule.len(),
{
    if schedule.len() > 0 {
        lemma_independence(first, second, schedule.drop_last());
        let earlier_first = lane_signals(schedule.drop_last(), Lane::First);
        let earlier_second = lane_signals(schedule.drop_last(), Lane::Second);
        let signal = schedule.last().1;
        match schedule.last().0 {
            Lane::First => {
                assert(earlier_first.push(signal).drop_last() =~= earlier_first);
            },
            Lane::Second => {
                assert(earlier_second.push(signal).drop_last() =~= earlier_second);
            },
        }
    }
}

/// Two uploads served at the same time: however the frames of the two bodies
/// are interleaved, each upload completes with the sum of the lengths of its
/// own chunks.
pub proof fn lemma_interleaved_uploads(
    one: Seq<Seq<u8>>,
    other: Seq<Seq<u8>>,
    schedule: Seq<(Lane, Signal)>,
)
    requires
        lane_signals(schedule, Lane::First) == session(chunk_signals(one)),
        lane_signals(schedule, Lane::Second) == session(chunk_signals(other)),
    ensures
        run_interleaved(State::initial(), State::initial(), schedule) == (
            State { phase: Phase::Completed, total: sum_of_lengths(one) },
            State { phase: Phase::Completed, total: sum_of_lengths(other) },
        ),
{
    lemma_independence(State::initial(), State::initial(), schedule);
    lemma_accounting(one);
    lemma_accounting(other);
}

} // verus!

//! Draining a whole body: the consumer driven over the frames of a stream,
//! from invocation to the response status.

use crate::consumer::{
    Consumer, Event, Input, Notice, Outcome, Phase, Signal, State, Terminal,
};
use crate::laws::{lemma_run_concat, lemma_terminal_absorbs};
use crate::stream::{leading_bytes, leading_chunks, lemma_leading_split, session};
use vstd::prelude::*;

verus! {

/// The signal that one frame of a body stream stands for.
pub open spec fn frame_signal(frame: Result<&[u8], String>) -> Signal {
    match frame {
        Ok(bytes) => Signal::Chunk(bytes@),
        Err(detail) => Signal::ReadError(detail@),
    }
}

/// The signals of a body's frames, in order.
pub open spec fn frame_signals(body: Seq<Result<&[u8], String>>) -> Seq<Signal> {
    body.map_values(|frame: Result<&[u8], String>| frame_signal(frame))
}

/// The mathematical content of a list of events.
pub open spec fn notices(events: Seq<Event>) -> Seq<Notice> {
    events.map_values(|event: Event| event@)
}

/// The counter cannot overflow over a body: after `seen` chunks the total is
/// at most `seen` times the greatest length, and with one more chunk it is
/// still within 128 bits.
proof fn lemma_counter_holds(total: nat, seen: nat, length: nat)
    requires
        total <= seen * usize::MAX,
        seen < usize::MAX,
        length <= usize::MAX,
    ensures
        total + length <= (seen + 1) * usize::MAX,
        total + length <= u128::MAX,
{
    let most = usize::MAX as nat;
    assert(most <= 0xffff_ffff_ffff_ffff);
    assert(total + length <= (seen + 1) * most) by (nonlinear_arith)
        requires
            total <= seen * most,
            length <= most,
    ;
    assert((seen + 1) * most <= 0xffff_ffff_ffff_ffff * 0xffff_ffff_ffff_ffff) by (nonlinear_arith)
        requires
            seen + 1 <= 0xffff_ffff_ffff_ffff,
            most <= 0xffff_ffff_ffff_ffff,
    ;
}

/// The result of draining one body.
#[derive(Debug, PartialEq, Eq)]
pub struct Upload {
    /// The bytes consumed and how the upload ended.
    pub outcome: Outcome,
    /// How many frames were taken from the stream, the failing one included.
    pub frames_read: usize,
    /// The events emitted, in order.
    pub events: Vec<Event>,
}

/// Drains a body whose stream yields the frames of `body`, in order, and then
/// ends: a chunk of bytes where the pull succeeds, the description of the
/// failure where it does not.
///
/// The consumer is invoked and then shown one frame after another. Each chunk
/// is counted as it comes. The first failure ends the upload with a server
/// error, and the frames behind it are never pulled. A stream that ends
/// without one ends the upload with success.
pub fn upload_void(body: &[Result<&[u8], String>]) -> (upload: Upload)
    ensures
        upload.outcome.total == leading_bytes(frame_signals(body@)),
        upload.outcome.terminal == Terminal::Completed <==> leading_chunks(frame_signals(body@))
            == body@.len(),
        upload.frames_read == if upload.outcome.terminal == Terminal::Failed {
            leading_chunks(frame_signals(body@)) + 1
        } else {
            body@.len()
        },
        upload.outcome.state() == State::initial().run(session(frame_signals(body@))),
        notices(upload.events@) == State::initial().trace(session(frame_signals(body@))),
{
    let ghost frames = frame_signals(body@);
    let ghost invoked = seq![Signal::Invoked];
    let mut consumer = Consumer::new();
    let mut events: Vec<Event> = Vec::new();
    let started = consumer.step(Input::Invoked);
    if let Some(event) = started.event {
        events.push(event);
    }
    proof {
        reveal_with_fuel(State::run, 2);
        reveal_with_fuel(State::trace, 2);
        assert(invoked.drop_last() =~= Seq::<Signal>::empty());
        assert(invoked + frames.take(0) =~= invoked);
        assert(notices(events@) =~= State::initial().trace(invoked));
    }
    let mut i: usize = 0;
    while i < body.len()
        invariant
            i <= body.len(),
            frames == frame_signals(body@),
            frames.len() == body@.len(),
            invoked == seq![Signal::Invoked],
            forall|j: int| 0 <= j < i ==> frames[j] is Chunk,
            consumer@ == State::initial().run(invoked + frames.take(i as int)),
            notices(events@) == State::initial().trace(invoked + frames.take(i as int)),
            consumer@.phase == Phase::Draining,
            consumer@.total == leading_bytes(frames.take(i as int)),
            consumer@.total <= i * usize::MAX,
        decreases body.len() - i,
    {
        let ghost seen = invoked + frames.take(i as int);
        let input = match &body[i] {
            Ok(bytes) => Input::Chunk(bytes),
            Err(detail) => Input::ReadError(detail.clone()),
        };
        proof {
            assert(input@ == frames[i as int]);
            assert(frames.take(i + 1) =~= frames.take(i as int).push(frames[i as int]));
            assert(invoked + frames.take(i + 1) =~= seen.push(frames[i as int]));
            assert(seen.push(frames[i as int]).drop_last() =~= seen);
            if frames[i as int] is Chunk {
                lemma_leading_split(frames, i + 1);
                lemma_leading_split(frames.take(i + 1), i as int);
                assert(frames.take(i + 1).take(i as int) =~= frames.take(i as int));
                assert(frames.take(i + 1).skip(i as int) =~= seq![frames[i as int]]);
                assert(seq![frames[i as int]].drop_first() =~= Seq::<Signal>::empty());
                assert(leading_bytes(Seq::<Signal>::empty()) == 0);
                lemma_counter_holds(consumer@.total, i as nat, input.size() as nat);
            } else {
                lemma_leading_split(frames, i as int);
            }
        }
        let reaction = consumer.step(input);
        if let Some(event) = reaction.event {
            events.push(event);
        }
        assert(notices(events@) =~= State::initial().trace(invoked + frames.take(i + 1)));
        i = i + 1;
        if reaction.status.is_some() {
            proof {
                let rest = frames.skip(i as int) + seq![Signal::EndOfStream];
                assert(session(frames) =~= (invoked + frames.take(i as int)) + rest);
                lemma_run_concat(State::initial(), invoked + frames.take(i as int), rest);
                lemma_terminal_absorbs(consumer@, rest);
                assert(notices(events@) + Seq::<Notice>::empty() =~= notices(events@));
            }
            return Upload {
                outcome: Outcome { total: consumer.total(), terminal: Terminal::Failed },
                frames_read: i,
                events,
            };
        }
    }
    proof {
        assert(frames.take(i as int) =~= frames);
        lemma_leading_split(frames, i as int);
        assert(frames.skip(i as int) =~= Seq::<Signal>::empty());
        assert(session(frames) =~= (invoked + frames).push(Signal::EndOfStream));
        assert((invoked + frames).push(Signal::EndOfStream).drop_last() =~= invoked + frames);
    }
    let finished = consumer.step(Input::EndOfStream);
    if let Some(event) = finished.event {
        events.push(event);
    }
    assert(notices(events@) =~= State::initial().trace(session(frames)));
    Upload {
        outcome: Outcome { total: consumer.total(), terminal: Terminal::Completed },
        frames_read: i,
        events,
    }
}

} // verus!

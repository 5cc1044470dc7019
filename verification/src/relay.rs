//! Relaying an object's bytes from the store to the client.
//!
//! The store hands the object over in chunks. Each chunk is forwarded as it
//! arrives and nothing is kept: the relay holds its phase and no bytes. A
//! fault in the middle aborts the transfer; it is never passed off as the
//! end of the object.

use vstd::prelude::*;

verus! {

/// What the store's stream produced next.
#[derive(Debug, Clone, PartialEq, Eq)]
pub enum ChunkEvent {
    /// The next bytes of the object.
    Chunk(Vec<u8>),
    /// The store failed; the text says how.
    Fault(String),
    /// The object is complete.
    End,
}

/// What to do with the response body.
#[derive(Debug, Clone, PartialEq, Eq)]
pub enum RelayAction {
    /// Send these bytes on.
    Forward(Vec<u8>),
    /// Break the connection off, reporting this text.
    Abort(String),
    /// Close the body: the object was sent in full.
    Finish,
    /// Nothing: the body was closed or broken off before.
    Ignore,
}

/// Where a transfer stands.
#[derive(Debug, Clone, Copy, PartialEq, Eq, Structural)]
pub enum RelayPhase {
    /// Chunks are still expected.
    Open,
    /// The body was closed after the last chunk.
    Finished,
    /// The body was broken off after a fault.
    Aborted,
}

/// The phase after `event` arrives in `phase`.
pub open spec fn next_phase(phase: RelayPhase, event: ChunkEvent) -> RelayPhase {
    match phase {
        RelayPhase::Open => match event {
            ChunkEvent::Chunk(_) => RelayPhase::Open,
            ChunkEvent::Fault(_) => RelayPhase::Aborted,
            ChunkEvent::End => RelayPhase::Finished,
        },
        closed => closed,
    }
}

/// The action taken when `event` arrives in `phase`.
pub open spec fn action_for(phase: RelayPhase, event: ChunkEvent) -> RelayAction {
    match phase {
        RelayPhase::Open => match event {
            ChunkEvent::Chunk(bytes) => RelayAction::Forward(bytes),
            ChunkEvent::Fault(text) => RelayAction::Abort(text),
            ChunkEvent::End => RelayAction::Finish,
        },
        _ => RelayAction::Ignore,
    }
}

/// The bytes that an action puts on the wire.
pub open spec fn sent_by(action: RelayAction) -> Seq<u8> {
    match action {
        RelayAction::Forward(bytes) => bytes@,
        _ => Seq::empty(),
    }
}

/// The phase reached from `phase` after all of `events`, in order.
pub open spec fn phase_after(phase: RelayPhase, events: Seq<ChunkEvent>) -> RelayPhase
    decreases events.len(),
{
    if events.len() == 0 {
        phase
    } else {
        phase_after(next_phase(phase, events[0]), events.drop_first())
    }
}

/// All the bytes put on the wire while `events` arrive, starting in `phase`.
pub open spec fn body_after(phase: RelayPhase, events: Seq<ChunkEvent>) -> Seq<u8>
    decreases events.len(),
{
    if events.len() == 0 {
        Seq::empty()
    } else {
        sent_by(action_for(phase, events[0])) + body_after(
            next_phase(phase, events[0]),
            events.drop_first(),
        )
    }
}

/// The bytes of the first `count` events, taken as chunks, end to end.
pub open spec fn chunk_bytes(events: Seq<ChunkEvent>, count: int) -> Seq<u8>
    decreases count,
{
    if count <= 0 || count > events.len() {
        Seq::empty()
    } else {
        chunk_bytes(events, count - 1) + (match events[count - 1] {
            ChunkEvent::Chunk(bytes) => bytes@,
            _ => Seq::empty(),
        })
    }
}

/// The state of one transfer.
#[derive(Debug, Clone, Copy, PartialEq, Eq, Structural)]
pub struct Relay {
    pub phase: RelayPhase,
}

impl Relay {
    /// A transfer that has not seen any event yet.
    pub fn new() -> (relay: Relay)
        ensures
            relay.phase == RelayPhase::Open,
    {
        Relay { phase: RelayPhase::Open }
    }

    /// Takes the next event of the store's stream and says what to do with
    /// the body. While the transfer is open a chunk is forwarded as it is, a
    /// fault aborts, the end finishes. Once it is closed, every event is
    /// ignored.
    pub fn step(&mut self, event: ChunkEvent) -> (action: RelayAction)
        ensures
            action == action_for(old(self).phase, event),
            final(self).phase == next_phase(old(self).phase, event),
    {
        match self.phase {
            RelayPhase::Open => match event {
                ChunkEvent::Chunk(bytes) => RelayAction::Forward(bytes),
                ChunkEvent::Fault(text) => {
                    self.phase = RelayPhase::Aborted;
                    RelayAction::Abort(text)
                },
                ChunkEvent::End => {
                    self.phase = RelayPhase::Finished;
                    RelayAction::Finish
                },
            },
            _ => RelayAction::Ignore,
        }
    }

    /// Whether the body was broken off.
    pub fn is_aborted(&self) -> (aborted: bool)
        ensures
            aborted == (self.phase == RelayPhase::Aborted),
    {
        match self.phase {
            RelayPhase::Aborted => true,
            _ => false,
        }
    }

    /// Whether the body was closed after the whole object.
    pub fn is_finished(&self) -> (finished: bool)
        ensures
            finished == (self.phase == RelayPhase::Finished),
    {
        match self.phase {
            RelayPhase::Finished => true,
            _ => false,
        }
    }
}

/// Whether each of the first `count` events is a chunk.
pub open spec fn all_chunks(events: Seq<ChunkEvent>, count: int) -> bool {
    0 <= count <= events.len() && forall|i: int| 0 <= i < count ==> events[i] is Chunk
}

/// Once a transfer is closed nothing more is sent and the phase stays.
pub proof fn lemma_closed_stays_closed(phase: RelayPhase, events: Seq<ChunkEvent>)
    requires
        phase != RelayPhase::Open,
    ensures
        phase_after(phase, events) == phase,
        body_after(phase, events) == Seq::<u8>::empty(),
    decreases events.len(),
{
    if events.len() > 0 {
        lemma_closed_stays_closed(phase, events.drop_first());
    }
}

/// Taking the first chunk off the front: the bytes of `count + 1` events are
/// the first chunk followed by the bytes of `count` events of the rest.
proof fn lemma_chunk_bytes_front(events: Seq<ChunkEvent>, count: int)
    requires
        0 <= count < events.len(),
    ensures
        chunk_bytes(events, count + 1) == chunk_bytes(events, 1) + chunk_bytes(
            events.drop_first(),
            count,
        ),
    decreases count,
{
    let rest = events.drop_first();
    assert(chunk_bytes(events, 0) == Seq::<u8>::empty());
    if count == 0 {
        assert(chunk_bytes(rest, 0) == Seq::<u8>::empty());
        assert(chunk_bytes(events, 1) + Seq::<u8>::empty() =~= chunk_bytes(events, 1));
    } else {
        lemma_chunk_bytes_front(events, count - 1);
        assert(rest[count - 1] == events[count]);
        let last = match events[count] {
            ChunkEvent::Chunk(bytes) => bytes@,
            _ => Seq::empty(),
        };
        assert(chunk_bytes(events, count + 1) == chunk_bytes(events, count) + last);
        assert(chunk_bytes(rest, count) == chunk_bytes(rest, count - 1) + last);
        assert((chunk_bytes(events, 1) + chunk_bytes(rest, count - 1)) + last =~= chunk_bytes(
            events,
            1,
        ) + (chunk_bytes(rest, count - 1) + last));
    }
}

/// While only chunks arrive, the transfer stays open and the body is the
/// chunks end to end.
pub proof fn lemma_chunks_are_forwarded(events: Seq<ChunkEvent>)
    requires
        all_chunks(events, events.len() as int),
    ensures
        phase_after(RelayPhase::Open, events) == RelayPhase::Open,
        body_after(RelayPhase::Open, events) == chunk_bytes(events, events.len() as int),
    decreases events.len(),
{
    if events.len() > 0 {
        let rest = events.drop_first();
        assert forall|i: int| 0 <= i < rest.len() implies rest[i] is Chunk by {
            assert(rest[i] == events[i + 1]);
        }
        lemma_chunks_are_forwarded(rest);
        lemma_chunk_bytes_front(events, events.len() - 1);
        assert(chunk_bytes(events, 0) == Seq::<u8>::empty());
        assert(chunk_bytes(events, 1) =~= sent_by(action_for(RelayPhase::Open, events[0])));
    }
}

/// Round trip: when the store delivers the object as chunks and then ends,
/// the body sent is the chunks end to end, byte for byte, whatever their
/// number and sizes, and the transfer finishes.
pub proof fn lemma_complete_transfer(events: Seq<ChunkEvent>)
    requires
        events.len() > 0,
        all_chunks(events, events.len() - 1),
        events.last() is End,
    ensures
        phase_after(RelayPhase::Open, events) == RelayPhase::Finished,
        body_after(RelayPhase::Open, events) == chunk_bytes(events, events.len() - 1),
{
    lemma_prefix_then_event(events, events.len() - 1);
}

/// A fault after some chunks: the chunks before it were sent, nothing after
/// it is, and the transfer ends aborted, not finished, whatever follows.
pub proof fn lemma_fault_aborts(events: Seq<ChunkEvent>, at: int)
    requires
        0 <= at < events.len(),
        all_chunks(events, at),
        events[at] is Fault,
    ensures
        phase_after(RelayPhase::Open, events) == RelayPhase::Aborted,
        body_after(RelayPhase::Open, events) == chunk_bytes(events, at),
{
    lemma_prefix_then_event(events, at);
}

/// After `at` chunks the transfer is open with those chunks sent, so what
/// the event at `at` does decides the rest.
proof fn lemma_prefix_then_event(events: Seq<ChunkEvent>, at: int)
    requires
        0 <= at < events.len(),
        all_chunks(events, at),
        !(events[at] is Chunk),
    ensures
        phase_after(RelayPhase::Open, events) == next_phase(RelayPhase::Open, events[at]),
        body_after(RelayPhase::Open, events) == chunk_bytes(events, at),
    decreases at,
{
    let rest = events.drop_first();
    assert(chunk_bytes(events, 0) == Seq::<u8>::empty());
    if at == 0 {
        lemma_closed_stays_closed(next_phase(RelayPhase::Open, events[0]), rest);
        assert(body_after(RelayPhase::Open, events) =~= Seq::<u8>::empty());
    } else {
        assert(events[0] is Chunk);
        assert forall|i: int| 0 <= i < at - 1 implies rest[i] is Chunk by {
            assert(rest[i] == events[i + 1]);
        }
        assert(rest[at - 1] == events[at]);
        lemma_prefix_then_event(rest, at - 1);
        lemma_chunk_bytes_front(events, at - 1);
        assert(chunk_bytes(events, 1) =~= sent_by(action_for(RelayPhase::Open, events[0])));
    }
}

/// The number of chunks that arrive before the first event that is not a
/// chunk; the number of events if all are chunks.
pub open spec fn leading_chunks(events: Seq<ChunkEvent>) -> int
    decreases events.len(),
{
    if events.len() == 0 || !(events[0] is Chunk) {
        0
    } else {
        1 + leading_chunks(events.drop_first())
    }
}

/// `leading_chunks` counts chunks only and stops at the first other event.
proof fn lemma_leading_chunks(events: Seq<ChunkEvent>)
    ensures
        all_chunks(events, leading_chunks(events)),
        leading_chunks(events) < events.len() ==> !(events[leading_chunks(events)] is Chunk),
    decreases events.len(),
{
    if events.len() > 0 && events[0] is Chunk {
        let rest = events.drop_first();
        lemma_leading_chunks(rest);
        let count = leading_chunks(rest);
        assert forall|i: int| 0 <= i < count + 1 implies events[i] is Chunk by {
            if i > 0 {
                assert(events[i] == rest[i - 1]);
            }
        }
        if count < rest.len() {
            assert(events[count + 1] == rest[count]);
        }
    }
}

/// Every transfer, whatever the store does: the body is exactly the chunks
/// that came before the first event that is not a chunk. The transfer is
/// finished only if that event is the end, aborted only if it is a fault,
/// and still open only if there was none. So a body that was cut short is
/// never closed as if it were whole.
pub proof fn lemma_transfer_outcome(events: Seq<ChunkEvent>)
    ensures
        body_after(RelayPhase::Open, events) == chunk_bytes(events, leading_chunks(events)),
        phase_after(RelayPhase::Open, events) == RelayPhase::Finished <==> leading_chunks(events)
            < events.len() && events[leading_chunks(events)] is End,
        phase_after(RelayPhase::Open, events) == RelayPhase::Aborted <==> leading_chunks(events)
            < events.len() && events[leading_chunks(events)] is Fault,
        phase_after(RelayPhase::Open, events) == RelayPhase::Open <==> leading_chunks(events)
            == events.len(),
{
    lemma_leading_chunks(events);
    if leading_chunks(events) < events.len() {
        lemma_prefix_then_event(events, leading_chunks(events));
    } else {
        lemma_chunks_are_forwarded(events);
    }
}

} // verus!

//! Reading Ollama's streamed chat reply, one step at a time: the caller
//! reads lines, decodes them and hands deltas on as the steps ask, and the
//! steps decide what each line means and when the stream is over.
use vstd::prelude::*;

use super::ollama::{
    chunk_delta, chunk_outcome, chunk_text, chunk_text_is_handed_on_whole, early_end_message,
    line_outcome, ChunkOutcome, LineOutcome, OllamaChatChunk,
};
use super::ProviderError;
use crate::text::is_blank;

verus! {

/// What the caller reports to a stream in progress.
#[derive(Debug)]
pub enum StreamInput {
    /// A line read from the reply; `None` when the reply ended.
    Line(Option<String>),
    /// Reading the next line failed, with the reader's message.
    ReadFailed(String),
    /// The generation was cancelled while waiting for the next line.
    Cancelled,
    /// The line just read, decoded.
    Decoded(OllamaChatChunk),
    /// The line just read is not a chunk, with the decoder's message.
    Undecodable(String),
    /// The delta just handed out reached its receiver.
    Delivered,
    /// The receiver of deltas is gone.
    ReceiverGone,
}

/// What the stream asks of the caller next.
#[derive(Debug, PartialEq, Eq)]
pub enum StreamAction {
    /// Read the next line (or wait for cancellation).
    ReadLine,
    /// Decode this line as a chunk.
    Decode(String),
    /// Hand this delta on to the receiver.
    Deliver(String),
    /// The stream is over, with this result.
    Finish(Result<(), ProviderError>),
}

/// Where a stream stands.
#[derive(Debug, Clone, Copy, PartialEq, Eq, Structural)]
pub enum StreamPhase {
    /// Waiting for a line.
    Reading,
    /// Waiting for the line just read to be decoded.
    Decoding,
    /// Waiting for a delta to be handed on; `last` when its chunk ended
    /// the reply.
    Delivering { last: bool },
    /// The stream is over.
    Finished,
}

/// The deltas that `chunks` carry, in order.
pub open spec fn chunk_deltas(chunks: Seq<OllamaChatChunk>) -> Seq<Seq<char>>
    decreases chunks.len(),
{
    if chunks.len() == 0 {
        seq![]
    } else {
        let earlier = chunk_deltas(chunks.drop_last());
        match chunk_delta(chunks.last()) {
            Some(delta) => earlier.push(delta),
            None => earlier,
        }
    }
}

/// The pieces of `parts` joined, in order.
pub open spec fn joined(parts: Seq<Seq<char>>) -> Seq<char>
    decreases parts.len(),
{
    if parts.len() == 0 {
        Seq::empty()
    } else {
        joined(parts.drop_last()) + parts.last()
    }
}

/// The text of all `chunks`, in order.
pub open spec fn all_text(chunks: Seq<OllamaChatChunk>) -> Seq<char>
    decreases chunks.len(),
{
    if chunks.len() == 0 {
        Seq::empty()
    } else {
        all_text(chunks.drop_last()) + chunk_text(chunks.last())
    }
}

/// Nothing of the reply's text is lost or reordered: the deltas of a run of
/// chunks, joined, are the text of all the chunks, joined.
pub proof fn deltas_carry_all_text(chunks: Seq<OllamaChatChunk>)
    ensures
        joined(chunk_deltas(chunks)) == all_text(chunks),
    decreases chunks.len(),
{
    if chunks.len() > 0 {
        let earlier = chunks.drop_last();
        deltas_carry_all_text(earlier);
        chunk_text_is_handed_on_whole(chunks.last());
        match chunk_delta(chunks.last()) {
            Some(delta) => {
                assert(chunk_deltas(earlier).push(delta).drop_last() =~= chunk_deltas(earlier));
            },
            None => {
                assert(all_text(chunks) =~= all_text(earlier));
            },
        }
    }
}

/// A chunk after which the reply goes on: not marked done, no error.
pub open spec fn continues(chunk: OllamaChatChunk) -> bool {
    !chunk.done && chunk.error is None
}

/// One step of a stream: from `phase`, the caller's `input` leads to `next`
/// with `action`.
pub open spec fn stream_transition(
    phase: StreamPhase,
    input: StreamInput,
    next: StreamPhase,
    action: StreamAction,
) -> bool {
    match input {
        StreamInput::Line(None) => {
            &&& next is Finished
            &&& action matches StreamAction::Finish(Err(ProviderError::InvalidResponse(message)))
            &&& message@ == early_end_message()
        },
        StreamInput::Line(Some(text)) => if is_blank(text@) {
            next is Reading && action is ReadLine
        } else {
            &&& next is Decoding
            &&& action matches StreamAction::Decode(line)
            &&& line@ == text@
        },
        StreamInput::ReadFailed(reason) => {
            &&& next is Finished
            &&& action matches StreamAction::Finish(Err(ProviderError::InvalidResponse(message)))
            &&& message@ == reason@
        },
        StreamInput::Cancelled => next is Finished && action matches StreamAction::Finish(
            Err(ProviderError::Cancelled),
        ),
        StreamInput::Decoded(chunk) => match chunk.error {
            Some(error) => {
                &&& next is Finished
                &&& action matches StreamAction::Finish(Err(ProviderError::RequestFailed(message)))
                &&& message@ == error@
            },
            None => match chunk_delta(chunk) {
                Some(delta) => {
                    &&& next == StreamPhase::Delivering { last: chunk.done }
                    &&& action matches StreamAction::Deliver(text)
                    &&& text@ == delta
                },
                None => if chunk.done {
                    next is Finished && action matches StreamAction::Finish(Ok(()))
                } else {
                    next is Reading && action is ReadLine
                },
            },
        },
        StreamInput::Undecodable(reason) => {
            &&& next is Finished
            &&& action matches StreamAction::Finish(Err(ProviderError::InvalidResponse(message)))
            &&& message@ == reason@
        },
        StreamInput::Delivered => match phase {
            StreamPhase::Delivering { last } => if last {
                next is Finished && action matches StreamAction::Finish(Ok(()))
            } else {
                next is Reading && action is ReadLine
            },
            _ => false,
        },
        StreamInput::ReceiverGone => next is Finished && action matches StreamAction::Finish(
            Err(ProviderError::Cancelled),
        ),
    }
}

/// Whether a stream in `phase` takes `input`: a line, a failed read or a
/// cancellation while reading; the decoded line while decoding; the fate of
/// the delta while handing it on; nothing once over.
pub open spec fn takes(phase: StreamPhase, input: StreamInput) -> bool {
    match phase {
        StreamPhase::Reading => input is Line || input is ReadFailed || input is Cancelled,
        StreamPhase::Decoding => input is Decoded || input is Undecodable,
        StreamPhase::Delivering { .. } => input is Delivered || input is ReceiverGone,
        StreamPhase::Finished => false,
    }
}

/// A streamed chat reply being read.
pub struct ChatStream {
    phase: StreamPhase,
    chunks: Ghost<Seq<OllamaChatChunk>>,
    delivered: Ghost<Seq<Seq<char>>>,
    pending: Ghost<Option<Seq<char>>>,
}

impl ChatStream {
    /// Where the stream stands.
    pub closed spec fn phase(&self) -> StreamPhase {
        self.phase
    }

    /// The chunks taken so far, in order (a chunk that reports an error ends
    /// the stream and is not taken).
    pub closed spec fn chunks(&self) -> Seq<OllamaChatChunk> {
        self.chunks@
    }

    /// The deltas that reached the receiver, in order.
    pub closed spec fn delivered(&self) -> Seq<Seq<char>> {
        self.delivered@
    }

    /// The delta handed out whose delivery was not confirmed.
    pub closed spec fn pending(&self) -> Option<Seq<char>> {
        self.pending@
    }

    /// What every step keeps: the deltas delivered, followed by the one
    /// handed out and not confirmed, are exactly the deltas of the chunks
    /// taken, in order; no chunk taken reports an error, and every chunk
    /// before the last went on; while lines are still read or decoded, every
    /// chunk so far went on and no delta is outstanding; and while a delta is
    /// handed on, it belongs to the last chunk.
    pub open spec fn in_order(&self) -> bool {
        &&& self.delivered() + match self.pending() {
            Some(delta) => seq![delta],
            None => seq![],
        } == chunk_deltas(self.chunks())
        &&& forall|i: int| 0 <= i < self.chunks().len() - 1 ==> continues(#[trigger] self.chunks()[i])
        &&& (self.phase() is Reading || self.phase() is Decoding) ==> self.pending() is None && (
        self.chunks().len() > 0 ==> continues(self.chunks().last()))
        &&& forall|i: int| 0 <= i < self.chunks().len() ==> (#[trigger] self.chunks()[i]).error is None
        &&& self.phase() matches StreamPhase::Delivering { last } ==> self.pending() is Some
            && self.chunks().len() > 0 && self.chunks().last().done == last
    }

    #[verifier::type_invariant]
    spec fn well_formed(&self) -> bool {
        self.in_order()
    }

    /// A stream whose first line is still to be read.
    pub fn new() -> (r: Self)
        ensures
            r.phase() is Reading,
            r.chunks() == Seq::<OllamaChatChunk>::empty(),
            r.delivered() == Seq::<Seq<char>>::empty(),
            r.pending() is None,
            r.in_order(),
    {
        ChatStream {
            phase: StreamPhase::Reading,
            chunks: Ghost(Seq::empty()),
            delivered: Ghost(Seq::empty()),
            pending: Ghost(None),
        }
    }

    /// Whether the stream takes `input` now.
    pub fn accepts(&self, input: &StreamInput) -> (r: bool)
        ensures
            r == takes(self.phase(), *input),
    {
        match self.phase {
            StreamPhase::Reading => match input {
                StreamInput::Line(_) | StreamInput::ReadFailed(_) | StreamInput::Cancelled => true,
                _ => false,
            },
            StreamPhase::Decoding => match input {
                StreamInput::Decoded(_) | StreamInput::Undecodable(_) => true,
                _ => false,
            },
            StreamPhase::Delivering { .. } => match input {
                StreamInput::Delivered | StreamInput::ReceiverGone => true,
                _ => false,
            },
            StreamPhase::Finished => false,
        }
    }

    /// Takes the caller's `input` and says what to do next. A blank line is
    /// skipped; the end of the reply before its last chunk, a failed read
    /// and an undecodable line are invalid responses; an error reported in
    /// a chunk fails the request; a chunk's text is handed on; the reply is
    /// complete after the chunk marked done (and its text) has been handed
    /// on; cancellation, or a receiver that is gone, cancels it.
    pub fn step(&mut self, input: StreamInput) -> (action: StreamAction)
        requires
            takes(old(self).phase(), input),
        ensures
            stream_transition(old(self).phase(), input, final(self).phase(), action),
            final(self).chunks() == match input {
                StreamInput::Decoded(chunk) => if chunk.error is None {
                    old(self).chunks().push(chunk)
                } else {
                    old(self).chunks()
                },
                _ => old(self).chunks(),
            },
            final(self).delivered() == match input {
                StreamInput::Delivered => old(self).delivered().push(old(self).pending()->Some_0),
                _ => old(self).delivered(),
            },
            final(self).in_order(),
            action matches StreamAction::Deliver(text) ==> final(self).pending() == Some(text@),
            action matches StreamAction::Finish(Ok(())) ==> final(self).delivered() == chunk_deltas(
                final(self).chunks(),
            ) && final(self).chunks().len() > 0 && final(self).chunks().last().done,
            action matches StreamAction::Finish(Ok(())) ==> joined(final(self).delivered())
                == all_text(final(self).chunks()),
    {
        proof {
            use_type_invariant(&*self);
        }
        let ghost chunks = self.chunks@;
        let ghost delivered = self.delivered@;
        let ghost pending = self.pending@;
        match input {
            StreamInput::Line(line) => {
                let outcome = match &line {
                    Some(text) => line_outcome(Some(text.as_str())),
                    None => line_outcome(None),
                };
                match outcome {
                    LineOutcome::Skip => StreamAction::ReadLine,
                    LineOutcome::Decode => {
                        self.phase = StreamPhase::Decoding;
                        StreamAction::Decode(line.unwrap())
                    },
                    LineOutcome::Fail(error) => {
                        self.phase = StreamPhase::Finished;
                        StreamAction::Finish(Err(error))
                    },
                }
            },
            StreamInput::ReadFailed(reason) => {
                self.phase = StreamPhase::Finished;
                StreamAction::Finish(Err(ProviderError::InvalidResponse(reason)))
            },
            StreamInput::Cancelled => {
                self.phase = StreamPhase::Finished;
                StreamAction::Finish(Err(ProviderError::Cancelled))
            },
            StreamInput::Undecodable(reason) => {
                self.phase = StreamPhase::Finished;
                StreamAction::Finish(Err(ProviderError::InvalidResponse(reason)))
            },
            StreamInput::Decoded(chunk) => {
                let ghost decoded = chunk;
                proof {
                    assert(chunks.push(decoded).drop_last() =~= chunks);
                }
                match chunk_outcome(chunk) {
                    ChunkOutcome::Fail(error) => {
                        self.phase = StreamPhase::Finished;
                        StreamAction::Finish(Err(error))
                    },
                    ChunkOutcome::Continue { delta, done } => match delta {
                        Some(text) => {
                            *self = ChatStream {
                                phase: StreamPhase::Delivering { last: done },
                                chunks: Ghost(chunks.push(decoded)),
                                delivered: Ghost(delivered),
                                pending: Ghost(Some(text@)),
                            };
                            StreamAction::Deliver(text)
                        },
                        None => {
                            let phase = if done {
                                StreamPhase::Finished
                            } else {
                                StreamPhase::Reading
                            };
                            *self = ChatStream {
                                phase,
                                chunks: Ghost(chunks.push(decoded)),
                                delivered: Ghost(delivered),
                                pending: Ghost(None),
                            };
                            if done {
                                proof {
                                    deltas_carry_all_text(self.chunks@);
                                }
                                StreamAction::Finish(Ok(()))
                            } else {
                                StreamAction::ReadLine
                            }
                        },
                    },
                }
            },
            StreamInput::Delivered => {
                let last = match self.phase {
                    StreamPhase::Delivering { last } => last,
                    _ => true,
                };
                let phase = if last {
                    StreamPhase::Finished
                } else {
                    StreamPhase::Reading
                };
                proof {
                    assert(delivered + seq![pending->Some_0] =~= delivered.push(pending->Some_0));
                }
                *self = ChatStream {
                    phase,
                    chunks: Ghost(chunks),
                    delivered: Ghost(delivered.push(pending->Some_0)),
                    pending: Ghost(None),
                };
                if last {
                    proof {
                        deltas_carry_all_text(self.chunks@);
                    }
                    StreamAction::Finish(Ok(()))
                } else {
                    StreamAction::ReadLine
                }
            },
            StreamInput::ReceiverGone => {
                self.phase = StreamPhase::Finished;
                StreamAction::Finish(Err(ProviderError::Cancelled))
            },
        }
    }
}

} // verus!

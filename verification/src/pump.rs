//! The two pumps of an interactive session.
//!
//! The input pump carries local keystrokes to the remote input sink, one
//! byte at a time. The output pump carries the remote output chunks to the
//! local terminal and flushes after every chunk. Neither pump touches a
//! device: each is a transition function from what just happened to what has
//! to be done next, and the embedding program performs the actions.

use vstd::prelude::*;

verus! {

/// Nanoseconds the input pump rests when no keystroke is ready.
pub const IDLE_DELAY_NANOS: u64 = 10;

/// What the input pump is told: the outcome of the action it asked for last.
#[derive(Clone, Copy, Debug, PartialEq, Eq, Structural)]
pub enum InputEvent {
    /// The non-blocking read produced this byte.
    Byte(u8),
    /// The non-blocking read found nothing to read.
    NoInput,
    /// The non-blocking read failed.
    ReadFailed,
    /// The remote input sink took the byte.
    Forwarded,
    /// The remote input sink refused the byte.
    ForwardFailed,
    /// The rest is over.
    Woke,
}

/// What the input pump asks for.
#[derive(Clone, Copy, Debug, PartialEq, Eq, Structural)]
pub enum InputAction {
    /// Try to read one byte from the local input without blocking.
    Poll,
    /// Write this byte to the remote input sink.
    Forward(u8),
    /// Rest for this many nanoseconds.
    Sleep(u64),
}

/// The input pump. It keeps no state of its own: every decision depends on
/// the last outcome alone.
#[derive(Clone, Copy, Debug)]
pub struct InputPump {}

impl InputPump {
    /// The action that answers `event`.
    ///
    /// A byte that was read is forwarded unchanged. Without a byte the pump
    /// rests for [`IDLE_DELAY_NANOS`]. Whatever became of a forwarded byte,
    /// and after every rest, the pump polls again: a sink that refuses input
    /// does not stop it.
    pub open spec fn next(event: InputEvent) -> InputAction {
        match event {
            InputEvent::Byte(b) => InputAction::Forward(b),
            InputEvent::NoInput | InputEvent::ReadFailed => InputAction::Sleep(IDLE_DELAY_NANOS),
            InputEvent::Forwarded | InputEvent::ForwardFailed | InputEvent::Woke => InputAction::Poll,
        }
    }

    /// The first action of a freshly launched pump.
    pub fn start() -> (action: InputAction)
        ensures
            action == InputAction::Poll,
    {
        InputAction::Poll
    }

    /// Decides what to do after `event`.
    pub fn step(event: InputEvent) -> (action: InputAction)
        ensures
            action == Self::next(event),
    {
        match event {
            InputEvent::Byte(b) => InputAction::Forward(b),
            InputEvent::NoInput => InputAction::Sleep(IDLE_DELAY_NANOS),
            InputEvent::ReadFailed => InputAction::Sleep(IDLE_DELAY_NANOS),
            InputEvent::Forwarded => InputAction::Poll,
            InputEvent::ForwardFailed => InputAction::Poll,
            InputEvent::Woke => InputAction::Poll,
        }
    }
}

/// The bytes that the local input produced during `events`, in order.
pub open spec fn bytes_read(events: Seq<InputEvent>) -> Seq<u8>
    decreases events.len(),
{
    if events.len() == 0 {
        Seq::empty()
    } else {
        let before = bytes_read(events.drop_last());
        match events.last() {
            InputEvent::Byte(b) => before.push(b),
            _ => before,
        }
    }
}

/// The actions with which the input pump answers `events`, one for each.
pub open spec fn input_actions(events: Seq<InputEvent>) -> Seq<InputAction> {
    Seq::new(events.len(), |i: int| InputPump::next(events[i]))
}

/// The bytes that `actions` send to the remote input sink, in order.
pub open spec fn bytes_forwarded(actions: Seq<InputAction>) -> Seq<u8>
    decreases actions.len(),
{
    if actions.len() == 0 {
        Seq::empty()
    } else {
        let before = bytes_forwarded(actions.drop_last());
        match actions.last() {
            InputAction::Forward(b) => before.push(b),
            _ => before,
        }
    }
}

/// Whatever the local input and the remote sink do, the bytes sent to the
/// sink are the bytes that were read: the same values in the same order,
/// none lost and none sent twice.
pub proof fn lemma_input_is_forwarded_unchanged(events: Seq<InputEvent>)
    ensures
        bytes_forwarded(input_actions(events)) == bytes_read(events),
    decreases events.len(),
{
    if events.len() > 0 {
        lemma_input_is_forwarded_unchanged(events.drop_last());
        assert(input_actions(events).drop_last() =~= input_actions(events.drop_last()));
    }
}

/// A pump that is fed only bytes forwards exactly those bytes.
pub proof fn lemma_ready_input_is_forwarded(bytes: Seq<u8>)
    ensures
        bytes_read(Seq::new(bytes.len(), |i: int| InputEvent::Byte(bytes[i]))) == bytes,
        bytes_forwarded(
            input_actions(Seq::new(bytes.len(), |i: int| InputEvent::Byte(bytes[i]))),
        ) == bytes,
    decreases bytes.len(),
{
    let events = Seq::new(bytes.len(), |i: int| InputEvent::Byte(bytes[i]));
    if bytes.len() > 0 {
        let shorter = bytes.drop_last();
        lemma_ready_input_is_forwarded(shorter);
        assert(events.drop_last() =~= Seq::new(shorter.len(), |i: int| InputEvent::Byte(shorter[i])));
        assert(bytes =~= shorter.push(bytes.last()));
    }
    lemma_input_is_forwarded_unchanged(events);
}

/// Why a chunk did not reach the local terminal.
#[derive(Debug, PartialEq, Eq)]
pub struct WriteError {
    /// The cause as the terminal reported it.
    pub cause: String,
}

impl WriteError {
    /// A copy of this error.
    pub fn duplicate(&self) -> (copy: WriteError)
        ensures
            copy == *self,
    {
        WriteError { cause: self.cause.clone() }
    }
}

/// What the output pump is told: the outcome of the action it asked for last.
#[derive(Debug, PartialEq, Eq)]
pub enum OutputEvent {
    /// The remote session produced this chunk.
    Chunk(Vec<u8>),
    /// The remote output ended.
    Closed,
    /// The chunk was written to the local terminal.
    Written,
    /// The local terminal was flushed.
    Flushed,
    /// Writing or flushing the local terminal failed, for this cause.
    WriteFailed(String),
}

/// What the output pump asks for.
#[derive(Debug, PartialEq, Eq)]
pub enum OutputAction {
    /// Wait for the next chunk of remote output.
    Await,
    /// Write these bytes to the local terminal, all of them and unchanged.
    Write(Vec<u8>),
    /// Flush the local terminal.
    Flush,
    /// Stop pumping, with this result.
    Complete(Result<(), WriteError>),
}

/// The output pump, which is the step it is at.
#[derive(Clone, Copy, Debug, PartialEq, Eq, Structural)]
pub enum OutputPump {
    /// Waiting for the remote session's next chunk.
    AwaitingChunk,
    /// A chunk is being written to the local terminal.
    Writing,
    /// The local terminal is being flushed after a chunk.
    Flushing,
    /// The remote output ended and every chunk was written and flushed.
    Drained,
    /// The local terminal failed; pumping was abandoned.
    Broken,
}

impl OutputPump {
    /// The transition table: the pump's next step and the action it asks for,
    /// or `None` where `event` cannot follow the action that is outstanding.
    pub open spec fn next(self, event: OutputEvent) -> Option<(OutputPump, OutputAction)> {
        match (self, event) {
            (OutputPump::AwaitingChunk, OutputEvent::Chunk(bytes)) => Some(
                (OutputPump::Writing, OutputAction::Write(bytes)),
            ),
            (OutputPump::AwaitingChunk, OutputEvent::Closed) => Some(
                (OutputPump::Drained, OutputAction::Complete(Ok(()))),
            ),
            (OutputPump::Writing, OutputEvent::Written) => Some(
                (OutputPump::Flushing, OutputAction::Flush),
            ),
            (OutputPump::Flushing, OutputEvent::Flushed) => Some(
                (OutputPump::AwaitingChunk, OutputAction::Await),
            ),
            (OutputPump::Writing, OutputEvent::WriteFailed(cause)) => Some(
                (OutputPump::Broken, OutputAction::Complete(Err(WriteError { cause }))),
            ),
            (OutputPump::Flushing, OutputEvent::WriteFailed(cause)) => Some(
                (OutputPump::Broken, OutputAction::Complete(Err(WriteError { cause }))),
            ),
            _ => None,
        }
    }

    /// Whether the pump has stopped.
    pub open spec fn finished(self) -> bool {
        self == OutputPump::Drained || self == OutputPump::Broken
    }

    /// A pump at its first step, and the action that step asks for.
    pub fn start() -> (started: (OutputPump, OutputAction))
        ensures
            started.0 == OutputPump::AwaitingChunk,
            started.1 == OutputAction::Await,
    {
        (OutputPump::AwaitingChunk, OutputAction::Await)
    }

    /// Whether the pump has stopped.
    pub fn is_finished(&self) -> (finished: bool)
        ensures
            finished == self.finished(),
    {
        match self {
            OutputPump::Drained => true,
            OutputPump::Broken => true,
            _ => false,
        }
    }

    /// Takes `event` and returns the action to perform next. An event that
    /// cannot follow the outstanding action is refused: the pump stays as it
    /// is and `None` is returned.
    pub fn step(&mut self, event: OutputEvent) -> (action: Option<OutputAction>)
        ensures
            match old(self).next(event) {
                Some((pump, act)) => *final(self) == pump && action == Some(act),
                None => *final(self) == *old(self) && action is None,
            },
    {
        match (*self, event) {
            (OutputPump::AwaitingChunk, OutputEvent::Chunk(bytes)) => {
                *self = OutputPump::Writing;
                Some(OutputAction::Write(bytes))
            },
            (OutputPump::AwaitingChunk, OutputEvent::Closed) => {
                *self = OutputPump::Drained;
                Some(OutputAction::Complete(Ok(())))
            },
            (OutputPump::Writing, OutputEvent::Written) => {
                *self = OutputPump::Flushing;
                Some(OutputAction::Flush)
            },
            (OutputPump::Flushing, OutputEvent::Flushed) => {
                *self = OutputPump::AwaitingChunk;
                Some(OutputAction::Await)
            },
            (OutputPump::Writing, OutputEvent::WriteFailed(cause)) => {
                *self = OutputPump::Broken;
                Some(OutputAction::Complete(Err(WriteError { cause })))
            },
            (OutputPump::Flushing, OutputEvent::WriteFailed(cause)) => {
                *self = OutputPump::Broken;
                Some(OutputAction::Complete(Err(WriteError { cause })))
            },
            _ => None,
        }
    }
}

/// The step the pump is at after `events`, and the actions it asked for on
/// the way, when it starts at step `pump`. A refused event changes nothing.
pub open spec fn output_run(pump: OutputPump, events: Seq<OutputEvent>) -> (
    OutputPump,
    Seq<OutputAction>,
)
    decreases events.len(),
{
    if events.len() == 0 {
        (pump, Seq::empty())
    } else {
        let (before, actions) = output_run(pump, events.drop_last());
        match before.next(events.last()) {
            Some((after, action)) => (after, actions.push(action)),
            None => (before, actions),
        }
    }
}

/// Whether the pump, starting at step `pump`, refuses none of `events`.
pub open spec fn output_accepts(pump: OutputPump, events: Seq<OutputEvent>) -> bool
    decreases events.len(),
{
    events.len() > 0 ==> {
        &&& output_accepts(pump, events.drop_last())
        &&& output_run(pump, events.drop_last()).0.next(events.last()) is Some
    }
}

/// The contents of the chunks that the remote session produced during
/// `events`, in order.
pub open spec fn chunks_produced(events: Seq<OutputEvent>) -> Seq<Seq<u8>>
    decreases events.len(),
{
    if events.len() == 0 {
        Seq::empty()
    } else {
        let before = chunks_produced(events.drop_last());
        match events.last() {
            OutputEvent::Chunk(bytes) => before.push(bytes@),
            _ => before,
        }
    }
}

/// The contents that `actions` write to the local terminal, one entry for
/// each write, in order.
pub open spec fn chunks_written(actions: Seq<OutputAction>) -> Seq<Seq<u8>>
    decreases actions.len(),
{
    if actions.len() == 0 {
        Seq::empty()
    } else {
        let before = chunks_written(actions.drop_last());
        match actions.last() {
            OutputAction::Write(bytes) => before.push(bytes@),
            _ => before,
        }
    }
}

/// What a session looks like to the pump when the remote produces `chunks`
/// and the local terminal never fails: each chunk arrives, is written, and
/// is flushed.
pub open spec fn smooth_session(chunks: Seq<Vec<u8>>) -> Seq<OutputEvent>
    decreases chunks.len(),
{
    if chunks.len() == 0 {
        Seq::empty()
    } else {
        smooth_session(chunks.drop_last()) + seq![
            OutputEvent::Chunk(chunks.last()),
            OutputEvent::Written,
            OutputEvent::Flushed,
        ]
    }
}

/// What the pump is expected to ask for during a smooth session: for each
/// chunk in turn a write of that chunk, a flush, and the wait for the next.
pub open spec fn smooth_script(chunks: Seq<Vec<u8>>) -> Seq<OutputAction>
    decreases chunks.len(),
{
    if chunks.len() == 0 {
        Seq::empty()
    } else {
        smooth_script(chunks.drop_last()) + seq![
            OutputAction::Write(chunks.last()),
            OutputAction::Flush,
            OutputAction::Await,
        ]
    }
}

/// One more event extends a run by at most one action.
pub proof fn lemma_output_run_push(pump: OutputPump, events: Seq<OutputEvent>, event: OutputEvent)
    ensures
        output_run(pump, events.push(event)) == match output_run(pump, events).0.next(event) {
            Some((after, action)) => (after, output_run(pump, events).1.push(action)),
            None => output_run(pump, events),
        },
{
    assert(events.push(event).drop_last() =~= events);
}

/// Running the pump over two stretches of events in a row is running it over
/// their concatenation.
pub proof fn lemma_output_run_append(
    pump: OutputPump,
    first: Seq<OutputEvent>,
    second: Seq<OutputEvent>,
)
    ensures
        output_run(pump, first + second).0 == output_run(
            output_run(pump, first).0,
            second,
        ).0,
        output_run(pump, first + second).1 == output_run(pump, first).1 + output_run(
            output_run(pump, first).0,
            second,
        ).1,
    decreases second.len(),
{
    if second.len() == 0 {
        assert(first + second =~= first);
        assert(output_run(pump, first).1 + Seq::<OutputAction>::empty() =~= output_run(
            pump,
            first,
        ).1);
    } else {
        lemma_output_run_append(pump, first, second.drop_last());
        assert((first + second).drop_last() =~= first + second.drop_last());
        assert((first + second).last() == second.last());
        let middle = output_run(pump, first).0;
        let head = output_run(pump, first).1;
        let tail = output_run(middle, second.drop_last()).1;
        match output_run(middle, second.drop_last()).0.next(second.last()) {
            Some((_, action)) => {
                assert((head + tail).push(action) =~= head + tail.push(action));
            },
            None => {},
        }
    }
}

/// For every sequence of chunks that the remote session produces before it
/// closes, a pump whose terminal never fails asks for exactly this: each
/// chunk written unchanged, in the order of arrival, a flush after each
/// write, and at the end completion with success.
pub proof fn lemma_output_is_written_and_flushed(chunks: Seq<Vec<u8>>)
    ensures
        output_run(OutputPump::AwaitingChunk, smooth_session(chunks)) == (
            OutputPump::AwaitingChunk,
            smooth_script(chunks),
        ),
        output_run(
            OutputPump::AwaitingChunk,
            smooth_session(chunks).push(OutputEvent::Closed),
        ) == (
            OutputPump::Drained,
            smooth_script(chunks).push(OutputAction::Complete(Ok(()))),
        ),
        chunks_written(smooth_script(chunks)) == Seq::new(chunks.len(), |i: int| chunks[i]@),
    decreases chunks.len(),
{
    let start = OutputPump::AwaitingChunk;
    if chunks.len() > 0 {
        let earlier = chunks.drop_last();
        let chunk = chunks.last();
        lemma_output_is_written_and_flushed(earlier);

        let none = Seq::<OutputEvent>::empty();
        let one = none.push(OutputEvent::Chunk(chunk));
        let two = one.push(OutputEvent::Written);
        let round = two.push(OutputEvent::Flushed);
        lemma_output_run_push(start, none, OutputEvent::Chunk(chunk));
        lemma_output_run_push(start, one, OutputEvent::Written);
        lemma_output_run_push(start, two, OutputEvent::Flushed);
        let asked = Seq::<OutputAction>::empty().push(OutputAction::Write(chunk)).push(
            OutputAction::Flush,
        ).push(OutputAction::Await);
        assert(output_run(start, round) == (start, asked));
        assert(smooth_session(chunks) =~= smooth_session(earlier) + round);
        assert(smooth_script(chunks) =~= smooth_script(earlier) + asked);
        lemma_output_run_append(start, smooth_session(earlier), round);

        let base = smooth_script(earlier);
        let wrote = base.push(OutputAction::Write(chunk));
        let flushed = wrote.push(OutputAction::Flush);
        let waited = flushed.push(OutputAction::Await);
        assert(smooth_script(chunks) =~= waited);
        assert(waited.drop_last() =~= flushed);
        assert(flushed.drop_last() =~= wrote);
        assert(wrote.drop_last() =~= base);
        assert(chunks_written(wrote) == chunks_written(base).push(chunk@));
        assert(chunks_written(flushed) == chunks_written(wrote));
        assert(chunks_written(waited) == chunks_written(flushed));
        assert(chunks_written(waited) =~= Seq::new(chunks.len(), |i: int| chunks[i]@));
    } else {
        assert(chunks_written(smooth_script(chunks)) =~= Seq::new(
            chunks.len(),
            |i: int| chunks[i]@,
        ));
    }
    lemma_output_run_push(start, smooth_session(chunks), OutputEvent::Closed);
}

/// Whatever the remote session and the local terminal do, as long as the
/// pump is told nothing out of turn, what it asks to be written is what the
/// remote produced: the same contents in the same order, chunk for chunk.
pub proof fn lemma_output_is_written_unchanged(events: Seq<OutputEvent>)
    requires
        output_accepts(OutputPump::AwaitingChunk, events),
    ensures
        chunks_written(output_run(OutputPump::AwaitingChunk, events).1) == chunks_produced(
            events,
        ),
    decreases events.len(),
{
    if events.len() > 0 {
        lemma_output_is_written_unchanged(events.drop_last());
        let (before, actions) = output_run(OutputPump::AwaitingChunk, events.drop_last());
        match before.next(events.last()) {
            Some((_, action)) => {
                assert(actions.push(action).drop_last() =~= actions);
            },
            None => {},
        }
    }
}

/// Whatever the remote session and the local terminal do, a write is never
/// followed by anything but the flush of what was written, or by giving up
/// because the write failed.
pub proof fn lemma_every_write_is_flushed(events: Seq<OutputEvent>, i: int)
    requires
        0 <= i,
        i + 1 < output_run(OutputPump::AwaitingChunk, events).1.len(),
        output_run(OutputPump::AwaitingChunk, events).1[i] is Write,
    ensures
        ({
            let following = output_run(OutputPump::AwaitingChunk, events).1[i + 1];
            following == OutputAction::Flush || (following matches OutputAction::Complete(
                outcome,
            ) && outcome is Err)
        }),
    decreases events.len(),
{
    if events.len() > 0 {
        let (before, actions) = output_run(OutputPump::AwaitingChunk, events.drop_last());
        if i + 1 < actions.len() {
            lemma_every_write_is_flushed(events.drop_last(), i);
        } else {
            lemma_output_run_shape(events.drop_last());
        }
    }
}

/// The step a pump is at tells whether a write is what it asked for last.
proof fn lemma_output_run_shape(events: Seq<OutputEvent>)
    ensures
        ({
            let (pump, actions) = output_run(OutputPump::AwaitingChunk, events);
            pump == OutputPump::Writing <==> actions.len() > 0 && actions.last() is Write
        }),
    decreases events.len(),
{
    if events.len() > 0 {
        lemma_output_run_shape(events.drop_last());
    }
}

} // verus!

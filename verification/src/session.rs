use vstd::prelude::*;
use crate::policy::{keeps_going, marker_in, Decision, MarkerSet, StopMarkers};
use crate::text::{
    last_chars, last_n_chars, lemma_window_holds_recent, occurs_at, trim_trailing_newlines,
    trimmed,
};

verus! {

/// An engine fault that ends a generation call without a response.
#[derive(Clone, Copy, Debug, PartialEq, Eq, Structural)]
pub enum InferenceFailure {
    /// The prompt could not be turned into tokens.
    TokenizationFailed,
    /// The prompt does not fit into the model's context.
    PromptTooLong,
    /// A callback handed to the engine reported an error.
    CallbackFailed,
    /// Any other fault inside the engine.
    EngineFault,
}

/// One thing that a generation engine reports while it streams.
#[derive(Debug)]
pub enum StreamEvent {
    /// A piece of generated text.
    Fragment(String),
    /// The model signalled the end of its turn.
    EndOfSequence,
    /// The engine stopped on its own account: token limit or context used up.
    Exhausted,
    /// The engine failed.
    Fault(InferenceFailure),
}

/// A `StreamEvent` with its text as a sequence of characters.
pub enum EventModel {
    Fragment(Seq<char>),
    EndOfSequence,
    Exhausted,
    Fault(InferenceFailure),
}

impl View for StreamEvent {
    type V = EventModel;

    open spec fn view(&self) -> EventModel {
        match self {
            StreamEvent::Fragment(f) => EventModel::Fragment(f@),
            StreamEvent::EndOfSequence => EventModel::EndOfSequence,
            StreamEvent::Exhausted => EventModel::Exhausted,
            StreamEvent::Fault(e) => EventModel::Fault(*e),
        }
    }
}

/// Where a generation call stands.
#[derive(Clone, Copy, Debug, PartialEq, Eq, Structural)]
pub enum StreamState {
    /// Fragments are still taken.
    Open,
    /// The stream has ended; the text gathered so far is the response.
    Halted,
    /// The engine failed; the text gathered so far is not a response.
    Failed(InferenceFailure),
}

/// The text generated so far in one call, and whether more is taken.
pub struct ResponseBuffer {
    pub text: String,
    pub state: StreamState,
}

/// A `ResponseBuffer` with its text as a sequence of characters.
pub struct BufferModel {
    pub text: Seq<char>,
    pub state: StreamState,
}

impl View for ResponseBuffer {
    type V = BufferModel;

    open spec fn view(&self) -> BufferModel {
        BufferModel { text: self.text@, state: self.state }
    }
}

/// The buffer of a call that has seen no event yet.
pub open spec fn fresh() -> BufferModel {
    BufferModel { text: Seq::empty(), state: StreamState::Open }
}

/// The buffer after one event. A buffer that is no longer open ignores every
/// event. An open one appends a fragment unless the fragment, or the trailing
/// window of the text before it, holds a stop marker; then it halts and the
/// fragment is dropped. An end signal halts it, a fault fails it.
pub open spec fn step(policy: MarkerSet, buffer: BufferModel, event: EventModel) -> BufferModel {
    if buffer.state != StreamState::Open {
        buffer
    } else {
        match event {
            EventModel::Fragment(f) => {
                if keeps_going(policy.markers, f, last_chars(buffer.text, policy.window as int)) {
                    BufferModel { text: buffer.text + f, state: StreamState::Open }
                } else {
                    BufferModel { text: buffer.text, state: StreamState::Halted }
                }
            },
            EventModel::EndOfSequence => BufferModel { text: buffer.text, state: StreamState::Halted },
            EventModel::Exhausted => BufferModel { text: buffer.text, state: StreamState::Halted },
            EventModel::Fault(e) => BufferModel { text: buffer.text, state: StreamState::Failed(e) },
        }
    }
}

/// The buffer after a whole sequence of events, taken in order.
pub open spec fn replay(policy: MarkerSet, events: Seq<EventModel>) -> BufferModel
    decreases events.len(),
{
    if events.len() == 0 {
        fresh()
    } else {
        step(policy, replay(policy, events.drop_last()), events.last())
    }
}

/// What a call returns for its buffer: the fault of a failed stream, else the
/// text without its trailing newlines.
pub open spec fn outcome(buffer: BufferModel) -> Result<Seq<char>, InferenceFailure> {
    match buffer.state {
        StreamState::Failed(e) => Err(e),
        _ => Ok(trimmed(buffer.text)),
    }
}

/// `result` is `expected`, text compared as characters.
pub open spec fn is_outcome(
    result: Result<String, InferenceFailure>,
    expected: Result<Seq<char>, InferenceFailure>,
) -> bool {
    match result {
        Ok(text) => expected == Ok::<Seq<char>, InferenceFailure>(text@),
        Err(e) => expected == Err::<Seq<char>, InferenceFailure>(e),
    }
}

/// The events of a recorded stream as they stand in contracts.
pub open spec fn models(events: Seq<StreamEvent>) -> Seq<EventModel> {
    events.map_values(|event: StreamEvent| event@)
}

impl ResponseBuffer {
    /// An empty, open buffer.
    pub fn new() -> (buffer: ResponseBuffer)
        ensures
            buffer@ == fresh(),
    {
        ResponseBuffer { text: String::new(), state: StreamState::Open }
    }

    /// Whether fragments are still taken.
    pub fn is_open(&self) -> (open: bool)
        ensures
            open == (self@.state == StreamState::Open),
    {
        match self.state {
            StreamState::Open => true,
            _ => false,
        }
    }

    /// Takes one event of the stream and says whether the engine is to go on.
    pub fn accept(&mut self, policy: &StopMarkers, event: &StreamEvent) -> (decision: Decision)
        ensures
            final(self)@ == step(policy@, old(self)@, event@),
            decision == if final(self)@.state == StreamState::Open {
                Decision::Continue
            } else {
                Decision::Halt
            },
    {
        if !self.is_open() {
            return Decision::Halt;
        }
        match event {
            StreamEvent::Fragment(fragment) => {
                let tail = last_n_chars(self.text.as_str(), policy.window());
                if policy.should_continue(fragment.as_str(), tail.as_str()) {
                    self.text.append(fragment.as_str());
                    Decision::Continue
                } else {
                    self.state = StreamState::Halted;
                    Decision::Halt
                }
            },
            StreamEvent::EndOfSequence => {
                self.state = StreamState::Halted;
                Decision::Halt
            },
            StreamEvent::Exhausted => {
                self.state = StreamState::Halted;
                Decision::Halt
            },
            StreamEvent::Fault(e) => {
                self.state = StreamState::Failed(*e);
                Decision::Halt
            },
        }
    }

    /// Ends the call: the response is the gathered text without its trailing
    /// newlines, whatever halted the stream; after a fault there is no
    /// response, and the gathered text is dropped.
    pub fn finalize(self) -> (result: Result<String, InferenceFailure>)
        ensures
            is_outcome(result, outcome(self@)),
    {
        match self.state {
            StreamState::Failed(e) => Err(e),
            _ => Ok(trim_trailing_newlines(self.text.as_str())),
        }
    }
}

/// The response to a recorded stream: every event is taken in order, and the
/// buffer is then finalized. Events behind the one that halted the stream
/// change nothing.
pub fn respond(policy: &StopMarkers, events: &Vec<StreamEvent>) -> (result: Result<
    String,
    InferenceFailure,
>)
    ensures
        is_outcome(result, outcome(replay(policy@, models(events@)))),
{
    let mut buffer = ResponseBuffer::new();
    let mut taken: usize = 0;
    assert(models(events@).take(0) =~= Seq::<EventModel>::empty());
    while taken < events.len()
        invariant
            taken <= events.len(),
            buffer@ == replay(policy@, models(events@).take(taken as int)),
        decreases events.len() - taken,
    {
        buffer.accept(policy, &events[taken]);
        proof {
            let seen = models(events@).take(taken + 1);
            assert(seen.drop_last() =~= models(events@).take(taken as int));
            assert(seen.last() == events@[taken as int]@);
        }
        taken += 1;
    }
    assert(models(events@).take(taken as int) =~= models(events@));
    buffer.finalize()
}

/// Once a stream has halted or failed, nothing that follows changes the
/// buffer: no later fragment is appended.
pub proof fn lemma_closed_buffer_ignores(policy: MarkerSet, events: Seq<EventModel>, more: Seq<EventModel>)
    requires
        replay(policy, events).state != StreamState::Open,
    ensures
        replay(policy, events + more) == replay(policy, events),
    decreases more.len(),
{
    if more.len() == 0 {
        assert(events + more =~= events);
    } else {
        lemma_closed_buffer_ignores(policy, events, more.drop_last());
        assert((events + more).drop_last() =~= events + more.drop_last());
        assert((events + more).last() == more.last());
    }
}

/// A stop marker that arrives in pieces is caught. Let two fragments follow
/// one another whose concatenation holds a marker that begins no more than
/// `window` characters before its end, whether or not either fragment holds
/// it alone. Then, with both appended, the trailing window holds the marker:
/// the decision for whatever comes next is to halt, and the buffer takes no
/// further fragment.
pub proof fn lemma_split_marker_halts(
    policy: MarkerSet,
    text: Seq<char>,
    first: Seq<char>,
    second: Seq<char>,
    k: int,
    at: int,
    next: Seq<char>,
)
    requires
        0 <= k < policy.markers.len(),
        occurs_at(first + second, policy.markers[k], at),
        (first + second).len() - at <= policy.window,
    ensures
        marker_in(policy.markers, last_chars(text + first + second, policy.window as int)),
        !keeps_going(
            policy.markers,
            next,
            last_chars(text + first + second, policy.window as int),
        ),
        step(
            policy,
            BufferModel { text: text + first + second, state: StreamState::Open },
            EventModel::Fragment(next),
        ) == (BufferModel { text: text + first + second, state: StreamState::Halted }),
{
    let marker = policy.markers[k];
    let whole = text + first + second;
    assert(whole.subrange(text.len() + at, text.len() + at + marker.len()) =~= (first
        + second).subrange(at, at + marker.len()));
    assert(occurs_at(whole, marker, text.len() + at));
    lemma_window_holds_recent(whole, marker, text.len() + at, policy.window as int);
}

/// A stop marker that arrives in two pieces ends the turn. Let the buffer
/// take two fragments, neither of which holds a marker, and let their
/// concatenation end in one. Then the third fragment, whatever it is, is
/// not appended: the buffer halts on it and keeps the text of the first two.
/// This rests on the window being able to hold each marker, which every
/// `StopMarkers` value sees to.
pub proof fn lemma_marker_in_two_pieces_halts(
    policy: MarkerSet,
    text: Seq<char>,
    first: Seq<char>,
    second: Seq<char>,
    k: int,
    next: Seq<char>,
)
    requires
        policy.holds_markers(),
        0 <= k < policy.markers.len(),
        keeps_going(policy.markers, first, last_chars(text, policy.window as int)),
        keeps_going(policy.markers, second, last_chars(text + first, policy.window as int)),
        occurs_at(
            first + second,
            policy.markers[k],
            (first + second).len() - policy.markers[k].len(),
        ),
    ensures
        ({
            let start = BufferModel { text, state: StreamState::Open };
            let one = step(policy, start, EventModel::Fragment(first));
            let two = step(policy, one, EventModel::Fragment(second));
            let three = step(policy, two, EventModel::Fragment(next));
            &&& two == (BufferModel { text: text + first + second, state: StreamState::Open })
            &&& three == (BufferModel { text: text + first + second, state: StreamState::Halted })
        }),
{
    lemma_split_marker_halts(
        policy,
        text,
        first,
        second,
        k,
        (first + second).len() - policy.markers[k].len(),
        next,
    );
}

} // verus!

//! The delivery loop of one connection, as a state machine.
//!
//! The loop turns a room's broadcast feed into an ordered outbound stream.
//! The caller owns the feed and the transport: it performs each [`Action`]
//! and hands the answer back as the next [`Input`]. Every decision of the
//! loop (what to send, when to flush, when a lagging consumer is cut off)
//! is taken by [`DeliveryLoop::step`].

use crate::event::{close_encoding, close_frame, encoding, Event, EventView};
use vstd::prelude::*;

verus! {

/// How many lag signals a connection is forgiven. The next one ends it.
pub const LAG_LIMIT: u64 = 3;

/// Where in its cycle the loop stands.
#[derive(Copy, Clone, Debug, PartialEq, Eq, Structural)]
pub enum Phase {
    /// Not started yet.
    Idle,
    /// Waiting for the events that were ready without blocking.
    Draining,
    /// Waiting for the transport to take the drained batch.
    Batching,
    /// Waiting for the blocking receive.
    Waiting,
    /// Waiting for the transport to take the received event.
    Sending,
    /// Waiting for the transport to flush.
    Flushing,
    /// Waiting for the farewell frame to leave.
    Leaving,
    /// Over: the transport was told to close.
    Finished,
}

/// What a blocking receive on the feed came back with.
#[derive(Debug)]
pub enum Signal {
    /// The next event of the room.
    Event(Event),
    /// The backlog was overwritten before it was read; so many events were
    /// skipped.
    Lagged(u64),
    /// The feed is closed for good.
    Closed,
}

/// The answer to the action the loop asked for last.
#[derive(Debug)]
pub enum Input {
    /// The connection was accepted.
    Started,
    /// The events that were ready without blocking, oldest first.
    Drained(Vec<Event>),
    /// Whether the transport took the frames it was handed.
    Queued(bool),
    /// The outcome of the blocking receive.
    Received(Signal),
    /// Whether the transport flushed.
    Flushed(bool),
}

/// What the caller is to do next.
#[derive(Debug)]
pub enum Action {
    /// Collect the events that are ready without blocking.
    Drain,
    /// Queue these frames on the transport, in order, without flushing.
    Queue(Vec<Vec<u8>>),
    /// Block until the feed has something to say.
    Receive,
    /// Flush the transport.
    Flush,
    /// Send this frame, the session-ending sentinel, and ignore the result.
    Farewell(Vec<u8>),
    /// Close the transport, which sends on what is still queued, ignore the
    /// result, and stop.
    HangUp,
}

/// A signal, with its event by its view.
pub enum SignalView {
    Event(EventView),
    Lagged(u64),
    Closed,
}

/// An input, with its events by their views.
pub enum InputView {
    Started,
    Drained(Seq<EventView>),
    Queued(bool),
    Received(SignalView),
    Flushed(bool),
}

/// An action, with its frames as sequences of bytes.
pub enum ActionView {
    Drain,
    Queue(Seq<Seq<u8>>),
    Receive,
    Flush,
    Farewell(Seq<u8>),
    HangUp,
}

/// The state of a loop: its phase and the lag signals it has counted.
pub struct LoopState {
    pub phase: Phase,
    pub lag_count: nat,
}

/// The events of a vector, each by its view.
pub open spec fn events_view(events: Vec<Event>) -> Seq<EventView> {
    Seq::new(events@.len(), |i: int| events@[i]@)
}

/// The frames of a vector, each as a sequence of bytes.
pub open spec fn frames_view(frames: Vec<Vec<u8>>) -> Seq<Seq<u8>> {
    Seq::new(frames@.len(), |i: int| frames@[i]@)
}

impl View for Signal {
    type V = SignalView;

    open spec fn view(&self) -> SignalView {
        match self {
            Signal::Event(event) => SignalView::Event(event@),
            Signal::Lagged(skipped) => SignalView::Lagged(*skipped),
            Signal::Closed => SignalView::Closed,
        }
    }
}

impl View for Input {
    type V = InputView;

    open spec fn view(&self) -> InputView {
        match self {
            Input::Started => InputView::Started,
            Input::Drained(events) => InputView::Drained(events_view(*events)),
            Input::Queued(taken) => InputView::Queued(*taken),
            Input::Received(signal) => InputView::Received(signal@),
            Input::Flushed(flushed) => InputView::Flushed(*flushed),
        }
    }
}

impl View for Action {
    type V = ActionView;

    open spec fn view(&self) -> ActionView {
        match self {
            Action::Drain => ActionView::Drain,
            Action::Queue(frames) => ActionView::Queue(frames_view(*frames)),
            Action::Receive => ActionView::Receive,
            Action::Flush => ActionView::Flush,
            Action::Farewell(frame) => ActionView::Farewell(frame@),
            Action::HangUp => ActionView::HangUp,
        }
    }
}

/// The outbound frames of a batch: the frame of each event, in the order of
/// the batch.
pub open spec fn encode_all(events: Seq<EventView>) -> Seq<Seq<u8>> {
    Seq::new(events.len(), |i: int| encoding(events[i]))
}

/// The loop after it has hung up.
pub open spec fn hung_up(state: LoopState) -> (LoopState, ActionView) {
    (LoopState { phase: Phase::Finished, lag_count: state.lag_count }, ActionView::HangUp)
}

/// The loop in another phase, with its count unchanged.
pub open spec fn moved(state: LoopState, phase: Phase, action: ActionView) -> (
    LoopState,
    ActionView,
) {
    (LoopState { phase, lag_count: state.lag_count }, action)
}

/// What the loop does with a drained batch: nothing ready leads straight to
/// the blocking receive, and a batch is queued.
pub open spec fn after_drain(state: LoopState, events: Seq<EventView>) -> (LoopState, ActionView) {
    if events.len() == 0 {
        moved(state, Phase::Waiting, ActionView::Receive)
    } else {
        moved(state, Phase::Batching, ActionView::Queue(encode_all(events)))
    }
}

/// What the loop does with the outcome of a blocking receive.
pub open spec fn after_receive(state: LoopState, signal: SignalView) -> (LoopState, ActionView) {
    match signal {
        SignalView::Event(event) => moved(
            state,
            Phase::Sending,
            ActionView::Queue(seq![encoding(event)]),
        ),
        SignalView::Lagged(_) => {
            let counted = LoopState { phase: state.phase, lag_count: state.lag_count + 1 };
            if counted.lag_count > LAG_LIMIT {
                moved(counted, Phase::Leaving, ActionView::Farewell(close_encoding()))
            } else {
                moved(counted, Phase::Draining, ActionView::Drain)
            }
        },
        SignalView::Closed => hung_up(state),
    }
}

/// One step of the loop: the state it moves to and the action it asks for.
/// A transport that does not take a frame or does not flush ends the
/// connection, and so does an input that does not answer the action asked
/// for last.
pub open spec fn step_model(state: LoopState, input: InputView) -> (LoopState, ActionView) {
    match (state.phase, input) {
        (Phase::Idle, InputView::Started) => moved(state, Phase::Draining, ActionView::Drain),
        (Phase::Draining, InputView::Drained(events)) => after_drain(state, events),
        (Phase::Batching, InputView::Queued(true)) => moved(
            state,
            Phase::Waiting,
            ActionView::Receive,
        ),
        (Phase::Waiting, InputView::Received(signal)) => after_receive(state, signal),
        (Phase::Sending, InputView::Queued(true)) => moved(state, Phase::Flushing, ActionView::Flush),
        (Phase::Flushing, InputView::Flushed(true)) => moved(
            state,
            Phase::Draining,
            ActionView::Drain,
        ),
        _ => hung_up(state),
    }
}

/// Serialises a batch of events, in order.
pub fn encode_batch(events: &Vec<Event>) -> (frames: Vec<Vec<u8>>)
    ensures
        frames_view(frames) == encode_all(events_view(*events)),
{
    let mut frames: Vec<Vec<u8>> = Vec::new();
    let mut i: usize = 0;
    while i < events.len()
        invariant
            i <= events.len(),
            frames@.len() == i,
            forall|j: int| 0 <= j < i ==> (#[trigger] frames@[j])@ == encoding(events@[j]@),
        decreases events.len() - i,
    {
        frames.push(events[i].encode());
        i += 1;
    }
    assert(frames_view(frames) =~= encode_all(events_view(*events)));
    frames
}

/// The delivery loop of one connection.
pub struct DeliveryLoop {
    phase: Phase,
    lag_count: u64,
}

impl View for DeliveryLoop {
    type V = LoopState;

    closed spec fn view(&self) -> LoopState {
        LoopState { phase: self.phase, lag_count: self.lag_count as nat }
    }
}

impl DeliveryLoop {
    #[verifier::type_invariant]
    spec fn counted_within_limit(self) -> bool {
        &&& self.lag_count <= LAG_LIMIT + 1
        &&& self.phase != Phase::Leaving && self.phase != Phase::Finished ==> self.lag_count
            <= LAG_LIMIT
    }

    /// A loop that has not started, with no lag counted.
    pub fn new() -> (fresh: DeliveryLoop)
        ensures
            fresh@ == (LoopState { phase: Phase::Idle, lag_count: 0 }),
    {
        DeliveryLoop { phase: Phase::Idle, lag_count: 0 }
    }

    /// The phase the loop stands in.
    pub fn phase(&self) -> (phase: Phase)
        ensures
            phase == self@.phase,
    {
        self.phase
    }

    /// The lag signals counted so far. The count is never reset.
    pub fn lag_count(&self) -> (count: u64)
        ensures
            count == self@.lag_count,
    {
        self.lag_count
    }

    /// Whether the loop is over.
    pub fn is_finished(&self) -> (finished: bool)
        ensures
            finished == (self@.phase == Phase::Finished),
    {
        self.phase == Phase::Finished
    }

    fn hang_up(&mut self) -> (action: Action)
        ensures
            (final(self)@, action@) == hung_up(old(self)@),
    {
        proof {
            use_type_invariant(&*self);
        }
        self.phase = Phase::Finished;
        Action::HangUp
    }

    fn move_to(&mut self, phase: Phase, action: Action) -> (asked: Action)
        requires
            phase != Phase::Leaving && phase != Phase::Finished,
            old(self)@.lag_count <= LAG_LIMIT,
        ensures
            (final(self)@, asked@) == moved(old(self)@, phase, action@),
    {
        proof {
            use_type_invariant(&*self);
        }
        self.phase = phase;
        action
    }

    fn on_drained(&mut self, events: Vec<Event>) -> (action: Action)
        requires
            old(self)@.phase == Phase::Draining,
        ensures
            (final(self)@, action@) == after_drain(old(self)@, events_view(events)),
    {
        proof {
            use_type_invariant(&*self);
        }
        if events.len() == 0 {
            return self.move_to(Phase::Waiting, Action::Receive);
        }
        let frames = encode_batch(&events);
        self.move_to(Phase::Batching, Action::Queue(frames))
    }

    fn on_received(&mut self, signal: Signal) -> (action: Action)
        requires
            old(self)@.phase == Phase::Waiting,
        ensures
            (final(self)@, action@) == after_receive(old(self)@, signal@),
    {
        proof {
            use_type_invariant(&*self);
        }
        match signal {
            Signal::Event(event) => {
                let frame = event.encode();
                let ghost framed = frame@;
                let mut frames: Vec<Vec<u8>> = Vec::new();
                frames.push(frame);
                assert(frames_view(frames) =~= seq![framed]);
                self.move_to(Phase::Sending, Action::Queue(frames))
            },
            Signal::Lagged(_) => {
                if self.lag_count >= LAG_LIMIT {
                    let frame = close_frame();
                    self.phase = Phase::Leaving;
                    self.lag_count = self.lag_count + 1;
                    Action::Farewell(frame)
                } else {
                    self.lag_count = self.lag_count + 1;
                    self.move_to(Phase::Draining, Action::Drain)
                }
            },
            Signal::Closed => self.hang_up(),
        }
    }

    /// Takes the answer to the last action and decides the next one.
    ///
    /// The first input is [`Input::Started`]. After [`Action::HangUp`] the
    /// loop is over and answers every further input with the same action.
    pub fn step(&mut self, input: Input) -> (action: Action)
        ensures
            (final(self)@, action@) == step_model(old(self)@, input@),
    {
        proof {
            use_type_invariant(&*self);
        }
        match self.phase {
            Phase::Idle => match input {
                Input::Started => self.move_to(Phase::Draining, Action::Drain),
                _ => self.hang_up(),
            },
            Phase::Draining => match input {
                Input::Drained(events) => self.on_drained(events),
                _ => self.hang_up(),
            },
            Phase::Batching => match input {
                Input::Queued(true) => self.move_to(Phase::Waiting, Action::Receive),
                _ => self.hang_up(),
            },
            Phase::Waiting => match input {
                Input::Received(signal) => self.on_received(signal),
                _ => self.hang_up(),
            },
            Phase::Sending => match input {
                Input::Queued(true) => self.move_to(Phase::Flushing, Action::Flush),
                _ => self.hang_up(),
            },
            Phase::Flushing => match input {
                Input::Flushed(true) => self.move_to(Phase::Draining, Action::Drain),
                _ => self.hang_up(),
            },
            Phase::Leaving => self.hang_up(),
            Phase::Finished => self.hang_up(),
        }
    }
}

/// The state of a loop that has not started.
pub open spec fn fresh_loop() -> LoopState {
    LoopState { phase: Phase::Idle, lag_count: 0 }
}

/// The state a loop is in after it was fed `inputs` one by one.
pub open spec fn run(state: LoopState, inputs: Seq<InputView>) -> LoopState
    decreases inputs.len(),
{
    if inputs.len() == 0 {
        state
    } else {
        step_model(run(state, inputs.drop_last()), inputs.last()).0
    }
}

/// Whether an input is a lag signal.
pub open spec fn is_lag(input: InputView) -> bool {
    input matches InputView::Received(SignalView::Lagged(_))
}

/// How many lag signals a sequence of inputs holds.
pub open spec fn lag_signals(inputs: Seq<InputView>) -> nat
    decreases inputs.len(),
{
    if inputs.len() == 0 {
        0
    } else {
        lag_signals(inputs.drop_last()) + if is_lag(inputs.last()) {
            1nat
        } else {
            0nat
        }
    }
}

/// Whether the loop still serves its connection.
pub open spec fn serving(state: LoopState) -> bool {
    state.phase != Phase::Leaving && state.phase != Phase::Finished
}

/// A loop ends in exactly one way: by telling the caller to close the
/// transport. And once over, it stays over.
pub proof fn lemma_loop_ends_by_hanging_up(state: LoopState, input: InputView)
    ensures
        step_model(state, input).0.phase == Phase::Finished <==> step_model(state, input).1
            == ActionView::HangUp,
        state.phase == Phase::Finished ==> step_model(state, input).0.phase == Phase::Finished,
{
}

/// A transport that fails ends the loop then and there: where it does not
/// take a frame, of a drained batch or of a received event, or does not
/// flush, the loop hangs up. It says no farewell, and it asks for nothing
/// more to be received or queued.
pub proof fn lemma_transport_failure_ends_the_loop(state: LoopState, later: InputView)
    requires
        state.phase == Phase::Batching || state.phase == Phase::Sending || state.phase
            == Phase::Flushing,
    ensures
        ({
            let failure = if state.phase == Phase::Flushing {
                InputView::Flushed(false)
            } else {
                InputView::Queued(false)
            };
            let (over, asked) = step_model(state, failure);
            &&& asked == ActionView::HangUp
            &&& over.phase == Phase::Finished
            &&& step_model(over, later) == (over, ActionView::HangUp)
        }),
{
}

/// A loop that no longer serves its connection never serves it again.
pub proof fn lemma_no_return(state: LoopState, inputs: Seq<InputView>)
    requires
        !serving(state),
    ensures
        !serving(run(state, inputs)),
    decreases inputs.len(),
{
    if inputs.len() > 0 {
        lemma_no_return(state, inputs.drop_last());
    }
}

/// The lag count is never reset: while a loop serves its connection, its
/// count is the number of lag signals it has been handed since it started,
/// and that number is within the limit.
pub proof fn lemma_lag_count_is_never_reset(inputs: Seq<InputView>)
    requires
        serving(run(fresh_loop(), inputs)),
    ensures
        run(fresh_loop(), inputs).lag_count == lag_signals(inputs),
        lag_signals(inputs) <= LAG_LIMIT,
    decreases inputs.len(),
{
    if inputs.len() > 0 {
        let before = run(fresh_loop(), inputs.drop_last());
        if serving(before) {
            lemma_lag_count_is_never_reset(inputs.drop_last());
        }
    }
}

/// A connection that has used up its allowance is cut off by the next lag
/// signal: the loop asks for the session-ending frame to be sent, and then,
/// whatever the transport answers, for the transport to be closed.
pub proof fn lemma_lag_beyond_limit_ends_connection(
    inputs: Seq<InputView>,
    skipped: u64,
    answer: InputView,
)
    requires
        run(fresh_loop(), inputs).phase == Phase::Waiting,
        lag_signals(inputs) == LAG_LIMIT,
    ensures
        ({
            let waiting = run(fresh_loop(), inputs);
            let (leaving, asked) = step_model(
                waiting,
                InputView::Received(SignalView::Lagged(skipped)),
            );
            let (over, last) = step_model(leaving, answer);
            &&& !serving(leaving)
            &&& asked == ActionView::Farewell(close_encoding())
            &&& last == ActionView::HangUp
            &&& over.phase == Phase::Finished
        }),
{
    lemma_lag_count_is_never_reset(inputs);
}

/// The actions a loop asks for while it is fed `inputs` one by one.
pub open spec fn asked(state: LoopState, inputs: Seq<InputView>) -> Seq<ActionView>
    decreases inputs.len(),
{
    if inputs.len() == 0 {
        Seq::empty()
    } else {
        asked(state, inputs.drop_last()).push(
            step_model(run(state, inputs.drop_last()), inputs.last()).1,
        )
    }
}

/// The frames that a sequence of actions hands to the transport to queue, in
/// the order in which they are handed over.
pub open spec fn queued_frames(actions: Seq<ActionView>) -> Seq<Seq<u8>>
    decreases actions.len(),
{
    if actions.len() == 0 {
        Seq::empty()
    } else {
        queued_frames(actions.drop_last()) + match actions.last() {
            ActionView::Queue(frames) => frames,
            _ => Seq::empty(),
        }
    }
}

/// The events that a sequence of inputs hands to the loop, in feed order: the
/// drained batches and the events of the blocking receives.
pub open spec fn handed_events(inputs: Seq<InputView>) -> Seq<EventView>
    decreases inputs.len(),
{
    if inputs.len() == 0 {
        Seq::empty()
    } else {
        handed_events(inputs.drop_last()) + match inputs.last() {
            InputView::Drained(events) => events,
            InputView::Received(SignalView::Event(event)) => seq![event],
            _ => Seq::empty(),
        }
    }
}

/// Whether an action ends the session: the farewell frame or the close of
/// the transport.
pub open spec fn parting(action: ActionView) -> bool {
    action is Farewell || action is HangUp
}

/// Over a whole run, every event is framed exactly once and in feed order:
/// while a loop serves its connection, the frames it has handed to the
/// transport are the frames of the events it was handed, one for one and in
/// the same order, and it has neither said farewell nor hung up.
pub proof fn lemma_events_are_framed_once_in_feed_order(inputs: Seq<InputView>)
    requires
        serving(run(fresh_loop(), inputs)),
    ensures
        queued_frames(asked(fresh_loop(), inputs)) == encode_all(handed_events(inputs)),
        asked(fresh_loop(), inputs).len() == inputs.len(),
        forall|i: int|
            0 <= i < inputs.len() ==> !parting(#[trigger] asked(fresh_loop(), inputs)[i]),
    decreases inputs.len(),
{
    if inputs.len() == 0 {
        assert(queued_frames(asked(fresh_loop(), inputs)) =~= encode_all(handed_events(inputs)));
    } else {
        let earlier = inputs.drop_last();
        let before = run(fresh_loop(), earlier);
        assert(serving(before));
        lemma_events_are_framed_once_in_feed_order(earlier);
        let actions = asked(fresh_loop(), inputs);
        assert(actions.drop_last() =~= asked(fresh_loop(), earlier));
        let added = match inputs.last() {
            InputView::Drained(events) => events,
            InputView::Received(SignalView::Event(event)) => seq![event],
            _ => Seq::empty(),
        };
        let framed = match actions.last() {
            ActionView::Queue(frames) => frames,
            _ => Seq::empty(),
        };
        assert(framed =~= encode_all(added));
        assert(encode_all(handed_events(earlier) + added) =~= encode_all(handed_events(earlier))
            + encode_all(added));
    }
}

/// A received event is sent on at once: the loop queues its frame, and once
/// the transport has taken it, flushes, and once that is done, drains again.
pub proof fn lemma_received_event_is_flushed(state: LoopState, event: EventView)
    requires
        state.phase == Phase::Waiting,
    ensures
        ({
            let (sending, queue) = step_model(
                state,
                InputView::Received(SignalView::Event(event)),
            );
            let (flushing, flush) = step_model(sending, InputView::Queued(true));
            let (draining, drain) = step_model(flushing, InputView::Flushed(true));
            &&& queue == ActionView::Queue(seq![encoding(event)])
            &&& flush == ActionView::Flush
            &&& drain == ActionView::Drain
            &&& draining == (LoopState { phase: Phase::Draining, lag_count: state.lag_count })
        }),
{
}

/// A feed that closes ends the run quietly: the loop hangs up, once, and that
/// is its last action. It has handed the transport the frames of all the
/// events it was handed, in feed order, and no farewell frame.
pub proof fn lemma_closed_feed_ends_the_run_quietly(inputs: Seq<InputView>)
    requires
        run(fresh_loop(), inputs).phase == Phase::Waiting,
    ensures
        ({
            let whole = inputs.push(InputView::Received(SignalView::Closed));
            let actions = asked(fresh_loop(), whole);
            &&& run(fresh_loop(), whole).phase == Phase::Finished
            &&& actions.len() == whole.len()
            &&& actions.last() == ActionView::HangUp
            &&& forall|i: int| 0 <= i < inputs.len() ==> !parting(#[trigger] actions[i])
            &&& queued_frames(actions) == encode_all(handed_events(inputs))
        }),
{
    let whole = inputs.push(InputView::Received(SignalView::Closed));
    lemma_events_are_framed_once_in_feed_order(inputs);
    assert(whole.drop_last() =~= inputs);
    let actions = asked(fresh_loop(), whole);
    assert(actions.drop_last() =~= asked(fresh_loop(), inputs));
    assert(queued_frames(actions) =~= queued_frames(asked(fresh_loop(), inputs)));
}

} // verus!

//! The event-driven driver of the viewer, as a state machine.
//!
//! The loop is `Running` until a close request, an escape key press or a fatal
//! render error makes it `Exiting`, which it never leaves. Each event is answered
//! with one [`Action`] for the caller to perform.

use vstd::prelude::*;
use crate::event::{Event, WindowEvent};
use crate::state::{State, SurfaceError};

verus! {

/// Where the loop stands.
#[derive(Clone, Copy, Debug, PartialEq, Eq, Structural)]
pub enum LoopState {
    Running,
    Exiting,
}

/// What the caller is to do after an event.
#[derive(Clone, Copy, Debug, PartialEq, Eq, Structural)]
pub enum Action {
    /// Nothing.
    Wait,
    /// Ask the window system for a redraw in the next cycle.
    RequestRedraw,
    /// Render one frame and report how it went.
    Render,
    /// Report a render error that costs only the frame, and go on.
    Report(SurfaceError),
    /// Stop the event loop and end the process cleanly.
    Exit,
}

/// The loop's answer to an event: the next state and the action.
pub open spec fn on_event(state: LoopState, event: Event) -> (LoopState, Action) {
    match state {
        LoopState::Exiting => (LoopState::Exiting, Action::Wait),
        LoopState::Running => match event {
            Event::WindowEvent { own_window: true, event } => if event.asks_to_exit() {
                (LoopState::Exiting, Action::Exit)
            } else {
                (LoopState::Running, Action::Wait)
            },
            Event::RedrawRequested { own_window: true } => (LoopState::Running, Action::Render),
            Event::MainEventsCleared => (LoopState::Running, Action::RequestRedraw),
            _ => (LoopState::Running, Action::Wait),
        },
    }
}

/// The loop's answer to the outcome of rendering a frame.
pub open spec fn on_rendered(state: LoopState, outcome: Result<(), SurfaceError>) -> (
    LoopState,
    Action,
) {
    match state {
        LoopState::Exiting => (LoopState::Exiting, Action::Wait),
        LoopState::Running => match outcome {
            Ok(_) => (LoopState::Running, Action::Wait),
            Err(e) => if e.fatal() {
                (LoopState::Exiting, Action::Exit)
            } else {
                (LoopState::Running, Action::Report(e))
            },
        },
    }
}

/// The driver's state machine.
pub struct FrameLoop {
    state: LoopState,
}

impl View for FrameLoop {
    type V = LoopState;

    closed spec fn view(&self) -> LoopState {
        self.state
    }
}

impl FrameLoop {
    /// A loop that is running.
    pub fn new() -> (frame_loop: FrameLoop)
        ensures
            frame_loop@ == LoopState::Running,
    {
        FrameLoop { state: LoopState::Running }
    }

    /// Where the loop stands.
    pub fn state(&self) -> (state: LoopState)
        ensures
            state == self@,
    {
        self.state
    }

    /// Whether the loop has stopped for good.
    pub fn is_exiting(&self) -> (exiting: bool)
        ensures
            exiting == (self@ == LoopState::Exiting),
    {
        match self.state {
            LoopState::Exiting => true,
            LoopState::Running => false,
        }
    }

    /// Takes one event and says what to do.
    ///
    /// While running: a close request or an escape key press for the viewer's
    /// window ends the loop; the idle point asks for a redraw; a redraw request
    /// for the viewer's window asks for a frame; everything else is ignored. Once
    /// exiting, every event is ignored. The context is offered each window event
    /// and updated before each frame; neither changes it.
    pub fn handle_event(&mut self, context: &mut State, event: &Event) -> (action: Action)
        ensures
            (final(self)@, action) == on_event(old(self)@, *event),
            *final(context) == *old(context),
    {
        match self.state {
            LoopState::Exiting => Action::Wait,
            LoopState::Running => match event {
                Event::WindowEvent { own_window: true, event: window_event } => {
                    if !context.input(window_event) && window_event.is_exit_request() {
                        self.state = LoopState::Exiting;
                        Action::Exit
                    } else {
                        Action::Wait
                    }
                },
                Event::RedrawRequested { own_window: true } => {
                    context.update();
                    Action::Render
                },
                Event::MainEventsCleared => Action::RequestRedraw,
                _ => Action::Wait,
            },
        }
    }

    /// Takes the outcome of rendering a frame and says what to do.
    ///
    /// While running: success needs nothing; a fatal error ends the loop; any
    /// other error is reported and the loop goes on. Once exiting, the outcome is
    /// ignored.
    pub fn handle_rendered(&mut self, outcome: &Result<(), SurfaceError>) -> (action: Action)
        ensures
            (final(self)@, action) == on_rendered(old(self)@, *outcome),
    {
        match self.state {
            LoopState::Exiting => Action::Wait,
            LoopState::Running => match outcome {
                Ok(_) => Action::Wait,
                Err(e) => {
                    if e.is_fatal() {
                        self.state = LoopState::Exiting;
                        Action::Exit
                    } else {
                        Action::Report(*e)
                    }
                },
            },
        }
    }
}

/// One thing that reaches the loop: an event, or the outcome of a frame that the
/// loop asked for.
pub enum Input {
    Event(Event),
    Rendered(Result<(), SurfaceError>),
}

impl Input {
    /// An input that ends a running loop: an exit request for the viewer's
    /// window, or a fatal render error.
    pub open spec fn ends_loop(self) -> bool {
        match self {
            Input::Event(Event::WindowEvent { own_window: true, event }) => event.asks_to_exit(),
            Input::Event(_) => false,
            Input::Rendered(Ok(_)) => false,
            Input::Rendered(Err(e)) => e.fatal(),
        }
    }
}

/// The loop's answer to one input.
pub open spec fn step(state: LoopState, input: Input) -> (LoopState, Action) {
    match input {
        Input::Event(event) => on_event(state, event),
        Input::Rendered(outcome) => on_rendered(state, outcome),
    }
}

/// The state after a run of inputs.
pub open spec fn after_inputs(state: LoopState, inputs: Seq<Input>) -> LoopState
    decreases inputs.len(),
{
    if inputs.len() == 0 {
        state
    } else {
        step(after_inputs(state, inputs.drop_last()), inputs.last()).0
    }
}

/// A close request for the viewer's window, or escape going down in it, takes a
/// running loop to `Exiting` with the action `Exit`.
pub proof fn lemma_exit_request_ends_loop(event: WindowEvent)
    requires
        event.asks_to_exit(),
    ensures
        on_event(LoopState::Running, Event::WindowEvent { own_window: true, event }) == (
            LoopState::Exiting,
            Action::Exit,
        ),
{
}

/// A running loop leaves `Running` exactly on the inputs that end it, and it is
/// exactly then that it answers `Exit`.
pub proof fn lemma_loop_ends_exactly_on_ending_inputs(input: Input)
    ensures
        step(LoopState::Running, input).0 == LoopState::Exiting <==> input.ends_loop(),
        step(LoopState::Running, input).1 == Action::Exit <==> input.ends_loop(),
{
}

/// `Exiting` is terminal: no input leads out of it, and none is answered with
/// anything to do.
pub proof fn lemma_exiting_is_terminal(input: Input)
    ensures
        step(LoopState::Exiting, input) == (LoopState::Exiting, Action::Wait),
{
}

/// A loop that is `Exiting` after some inputs is `Exiting` after any more.
pub proof fn lemma_exiting_stays(state: LoopState, inputs: Seq<Input>, n: int)
    requires
        0 <= n <= inputs.len(),
        after_inputs(state, inputs.take(n)) == LoopState::Exiting,
    ensures
        after_inputs(state, inputs) == LoopState::Exiting,
    decreases inputs.len() - n,
{
    if n == inputs.len() {
        assert(inputs.take(n) =~= inputs);
    } else {
        let more = inputs.take(n + 1);
        assert(more.drop_last() =~= inputs.take(n));
        assert(more.last() == inputs[n]);
        lemma_exiting_stays(state, inputs, n + 1);
    }
}

/// Once a run of inputs holds one that ends the loop, the loop is `Exiting` at
/// the end of the run, whatever state it started in and whatever else the run
/// holds.
pub proof fn lemma_ending_input_is_final(state: LoopState, inputs: Seq<Input>, i: int)
    requires
        0 <= i < inputs.len(),
        inputs[i].ends_loop(),
    ensures
        after_inputs(state, inputs) == LoopState::Exiting,
{
    let upto = inputs.take(i + 1);
    assert(upto.last() == inputs[i]);
    lemma_exiting_stays(state, inputs, i + 1);
}

} // verus!

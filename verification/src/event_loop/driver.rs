//! The loop driver: the one stream of platform events, commands and creation
//! outcomes, processed in order until a command ends the loop.

use vstd::prelude::*;
use crate::event_loop::command::{
    Action, Command, Delivery, PlatformEvent, Reply, WindowHandle,
};
use crate::event_loop::state::{
    LoopState, LoopView, dispatch_step, initial_view, platform_step, window_built_step,
};

verus! {

/// One item of the stream that the owning thread waits on.
#[derive(Debug)]
pub enum Input<I, D, W, E> {
    /// A request of a worker thread.
    Command(Command<I, D, W>),
    /// A notification of the platform.
    Platform(PlatformEvent<E>),
    /// The outcome of the window creation that the driver asked for: the
    /// window, or the platform's message on failure.
    WindowBuilt(Result<WindowHandle, String>),
}

/// What the owning thread has to do after one item of the stream.
#[derive(Debug, PartialEq, Eq)]
pub enum Output<I, E> {
    /// The action that a command, or a creation outcome, calls for.
    Action(Action<I>),
    /// Where a platform event goes.
    Delivery(Delivery<E>),
    /// The loop has ended; the item was not processed.
    Stopped,
}

/// Mathematical model of [`LoopDriver`].
pub struct DriverView<D, W> {
    pub state: LoopView<D, W>,
    pub exited: bool,
}

/// The driver before the first item: the initial state, running.
pub open spec fn initial_driver<D, W>() -> DriverView<D, W> {
    DriverView { state: initial_view(), exited: false }
}

/// The driver's transition on one item of the stream.
pub open spec fn step<I, D, W, E>(d: DriverView<D, W>, input: Input<I, D, W, E>) -> (
    DriverView<D, W>,
    Output<I, E>,
) {
    if d.exited {
        (d, Output::Stopped)
    } else {
        match input {
            Input::Command(command) => {
                let (state, action) = dispatch_step(d.state, command);
                (DriverView { state, exited: action is Exit }, Output::Action(action))
            },
            Input::Platform(event) => {
                let (state, delivery) = platform_step(d.state, event);
                (DriverView { state, exited: false }, Output::Delivery(delivery))
            },
            Input::WindowBuilt(outcome) => {
                let (state, answer) = window_built_step(d.state, outcome);
                (
                    DriverView { state, exited: false },
                    Output::Action(Action::Reply(Reply::WindowCreated(answer))),
                )
            },
        }
    }
}

/// The driver after a whole stream, taken item by item from the front.
pub open spec fn run<I, D, W, E>(d: DriverView<D, W>, inputs: Seq<Input<I, D, W, E>>) -> DriverView<
    D,
    W,
>
    decreases inputs.len(),
{
    if inputs.len() == 0 {
        d
    } else {
        step(run(d, inputs.drop_last()), inputs.last()).0
    }
}

/// What the driver puts out for a stream: for each item, the output of the
/// transition taken in the state that the items before it have left.
pub open spec fn outputs<I, D, W, E>(d: DriverView<D, W>, inputs: Seq<Input<I, D, W, E>>) -> Seq<
    Output<I, E>,
> {
    Seq::new(inputs.len(), |i: int| step(run(d, inputs.take(i)), inputs[i]).1)
}

/// The loop driver: the state of the owning thread, and whether the loop has
/// been ended.
pub struct LoopDriver<D, W> {
    state: LoopState<D, W>,
    exited: bool,
}

impl<D, W> View for LoopDriver<D, W> {
    type V = DriverView<D, W>;

    closed spec fn view(&self) -> DriverView<D, W> {
        DriverView { state: self.state@, exited: self.exited }
    }
}

impl<D, W> LoopDriver<D, W> {
    /// A driver that has seen nothing yet.
    pub fn new() -> (driver: Self)
        ensures
            driver@ == initial_driver::<D, W>(),
    {
        LoopDriver { state: LoopState::new(), exited: false }
    }

    /// The state that the dispatcher works on.
    pub fn state(&self) -> (state: &LoopState<D, W>)
        ensures
            state@ == self@.state,
    {
        &self.state
    }

    /// Whether an exit command has ended the loop.
    pub fn has_exited(&self) -> (exited: bool)
        ensures
            exited == self@.exited,
    {
        self.exited
    }

    /// Processes one item of the stream. Once the loop has ended nothing is
    /// processed any more.
    pub fn feed<I, E>(&mut self, input: Input<I, D, W, E>) -> (output: Output<I, E>)
        ensures
            (final(self)@, output) == step(old(self)@, input),
    {
        if self.exited {
            return Output::Stopped;
        }
        match input {
            Input::Command(command) => {
                let action = self.state.dispatch(command);
                if let Action::Exit = action {
                    self.exited = true;
                }
                Output::Action(action)
            },
            Input::Platform(event) => Output::Delivery(self.state.platform_event(event)),
            Input::WindowBuilt(outcome) => {
                let answer = self.state.window_built(outcome);
                Output::Action(Action::Reply(Reply::WindowCreated(answer)))
            },
        }
    }

    /// Processes a stream from front to back and collects what has to be
    /// done for each item.
    pub fn feed_all<I, E>(&mut self, inputs: Vec<Input<I, D, W, E>>) -> (produced: Vec<
        Output<I, E>,
    >)
        ensures
            final(self)@ == run(old(self)@, inputs@),
            produced@ == outputs(old(self)@, inputs@),
    {
        let ghost start = self@;
        let ghost all = inputs@;
        let mut produced: Vec<Output<I, E>> = Vec::new();
        for input in it: inputs
            invariant
                it.seq() == all,
                self@ == run(start, all.take(it.index() as int)),
                produced@ == outputs(start, all.take(it.index() as int)),
        {
            let ghost i = it.index() as int;
            assert(all.take(i + 1).drop_last() == all.take(i));
            assert(all.take(i + 1).last() == all[i]);
            let output = self.feed(input);
            produced.push(output);
            proof {
                lemma_outputs_extend(start, all.take(i + 1));
            }
        }
        assert(all.take(all.len() as int) == all);
        produced
    }
}

/// The outputs of a stream are those of the stream without its last item,
/// followed by the output for the last item.
pub proof fn lemma_outputs_extend<I, D, W, E>(d: DriverView<D, W>, inputs: Seq<Input<I, D, W, E>>)
    requires
        inputs.len() > 0,
    ensures
        outputs(d, inputs) == outputs(d, inputs.drop_last()).push(
            step(run(d, inputs.drop_last()), inputs.last()).1,
        ),
{
    let shorter = inputs.drop_last();
    let extended = outputs(d, shorter).push(step(run(d, shorter), inputs.last()).1);
    assert forall|i: int| 0 <= i < inputs.len() implies outputs(d, inputs)[i] == extended[i] by {
        if i < shorter.len() {
            assert(shorter.take(i) == inputs.take(i));
        } else {
            assert(inputs.take(i) == shorter);
        }
    }
    assert(outputs(d, inputs) =~= extended);
}

} // verus!

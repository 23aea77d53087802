//! What holds of every stream that the loop driver may be given.

use vstd::prelude::*;
use crate::event_loop::command::{
    Action, Command, Delivery, EventLoopError, PlatformEvent, Reply,
};
use crate::event_loop::driver::{DriverView, Input, Output, outputs, run, step};

verus! {

/// The output that tells a requester that its window was created.
pub open spec fn reports_window_created<I, E>(output: Output<I, E>) -> bool {
    output matches Output::Action(Action::Reply(Reply::WindowCreated(Ok(_))))
}

/// The output that turns a window creation down because a window exists.
pub open spec fn window_exists_reply<I, E>() -> Output<I, E> {
    Output::Action(Action::Reply(Reply::WindowCreated(Err(EventLoopError::WindowExists))))
}

/// The item is a command that registers a device sink.
pub open spec fn registers_device_sink<I, D, W, E>(input: Input<I, D, W, E>) -> bool {
    input matches Input::Command(Command::RegisterDeviceSubscriber { sink: Some(_) })
}

/// The item is a command that registers a window sink.
pub open spec fn registers_window_sink<I, D, W, E>(input: Input<I, D, W, E>) -> bool {
    input matches Input::Command(Command::RegisterWindowSubscriber { sink: Some(_) })
}

/// The item is the command that ends the loop.
pub open spec fn is_exit<I, D, W, E>(input: Input<I, D, W, E>) -> bool {
    input matches Input::Command(Command::Exit)
}

/// The command is one that its issuer waits on for a reply.
pub open spec fn expects_reply<I, D, W>(command: Command<I, D, W>) -> bool {
    command is CreateWindow || command is CreateSurface || command is QueryWindowSize
}

/// The action is a reply, or platform work at whose end a reply is sent.
pub open spec fn leads_to_reply<I>(action: Action<I>) -> bool {
    action is Reply || action is BuildWindow || action is BuildSurface
}

/// In the running loop a command is answered exactly when it carries a
/// reply channel: such a command leads to one reply, any other to none.
/// The outcome of a window creation is always answered.
pub proof fn law_requests_are_answered<I, D, W, E>(d: DriverView<D, W>, input: Input<I, D, W, E>)
    requires
        !d.exited,
    ensures
        input matches Input::Command(command) ==> (step(d, input).1 matches Output::Action(action)
            && leads_to_reply(action) == expects_reply(command)),
        input is WindowBuilt ==> step(d, input).1 matches Output::Action(
            Action::Reply(Reply::WindowCreated(_)),
        ),
{
}

/// A request that is turned down leaves the driver as it was: a window
/// creation while a window exists, and a size query or a surface request
/// while none does.
pub proof fn law_refusal_changes_nothing<I, D, W, E>(d: DriverView<D, W>, command: Command<I, D, W>)
    requires
        step(d, Input::<I, D, W, E>::Command(command)).1 matches Output::Action(
            Action::Reply(reply),
        ) && (reply matches Reply::WindowCreated(Err(_)) || reply matches Reply::WindowSize(Err(_))
            || reply is SurfaceRefused),
    ensures
        step(d, Input::<I, D, W, E>::Command(command)).0 == d,
{
}

/// Taking one more item of a stream is one transition.
pub proof fn lemma_run_next<I, D, W, E>(
    d: DriverView<D, W>,
    inputs: Seq<Input<I, D, W, E>>,
    i: int,
)
    requires
        0 <= i < inputs.len(),
    ensures
        run(d, inputs.take(i + 1)) == step(run(d, inputs.take(i)), inputs[i]).0,
{
    assert(inputs.take(i + 1).drop_last() == inputs.take(i));
    assert(inputs.take(i + 1).last() == inputs[i]);
}

/// Items are observed in the order of the stream: a stream made of two
/// parts is processed as the first part, then the second part in the state
/// that the first has left, and puts out what the parts put out, in that
/// order.
pub proof fn law_stream_order<I, D, W, E>(
    d: DriverView<D, W>,
    first: Seq<Input<I, D, W, E>>,
    second: Seq<Input<I, D, W, E>>,
)
    ensures
        run(d, first + second) == run(run(d, first), second),
        outputs(d, first + second) == outputs(d, first) + outputs(run(d, first), second),
    decreases second.len(),
{
    let whole = first + second;
    if second.len() == 0 {
        assert(whole == first);
        assert(outputs(run(d, first), second) =~= Seq::<Output<I, E>>::empty());
        assert(outputs(d, first) + outputs(run(d, first), second) =~= outputs(d, first));
    } else {
        let shorter = second.drop_last();
        law_stream_order(d, first, shorter);
        assert(whole.drop_last() == first + shorter);
        assert(whole.last() == second.last());
        crate::event_loop::driver::lemma_outputs_extend(d, whole);
        crate::event_loop::driver::lemma_outputs_extend(run(d, first), second);
        assert(outputs(d, whole) =~= outputs(d, first) + outputs(run(d, first), second));
    }
}

/// A window, once there, stays, under the token it was created with, and an
/// ended loop stays ended.
pub proof fn lemma_window_and_exit_kept<I, D, W, E>(
    d: DriverView<D, W>,
    inputs: Seq<Input<I, D, W, E>>,
    i: int,
    j: int,
)
    requires
        0 <= i <= j <= inputs.len(),
    ensures
        run(d, inputs.take(i)).state.window matches Some(window) ==> (run(
            d,
            inputs.take(j),
        ).state.window matches Some(later) && later.id == window.id),
        run(d, inputs.take(i)).exited ==> run(d, inputs.take(j)) == run(d, inputs.take(i)),
    decreases j - i,
{
    if i < j {
        lemma_window_and_exit_kept(d, inputs, i, j - 1);
        lemma_run_next(d, inputs, j - 1);
    }
}

/// At most one window creation ever succeeds. After the output that reports
/// a created window, no later output reports one; every later request to
/// create a window, and every later creation outcome, is answered that the
/// window exists, unless the loop has ended by then.
pub proof fn law_single_window<I, D, W, E>(
    d: DriverView<D, W>,
    inputs: Seq<Input<I, D, W, E>>,
    i: int,
    j: int,
)
    requires
        0 <= i < j < inputs.len(),
        reports_window_created(outputs(d, inputs)[i]),
    ensures
        !reports_window_created(outputs(d, inputs)[j]),
        (inputs[j] matches Input::Command(Command::CreateWindow { .. })) || (
        inputs[j] matches Input::WindowBuilt(Ok(_))) ==> outputs(d, inputs)[j] == (if run(
            d,
            inputs.take(j),
        ).exited {
            Output::<I, E>::Stopped
        } else {
            window_exists_reply()
        }),
{
    lemma_run_next(d, inputs, i);
    lemma_window_and_exit_kept(d, inputs, i + 1, j);
}

/// Before any window creation has succeeded there is no window: a size
/// query and a surface request are answered that the window is missing, the
/// surface request with its instance handed back.
pub proof fn law_window_missing<I, D, W, E>(
    d: DriverView<D, W>,
    inputs: Seq<Input<I, D, W, E>>,
    j: int,
)
    requires
        d.state.window is None,
        0 <= j < inputs.len(),
        forall|i: int| 0 <= i < j ==> !reports_window_created(#[trigger] outputs(d, inputs)[i]),
    ensures
        run(d, inputs.take(j)).state.window is None,
        !run(d, inputs.take(j)).exited ==> (inputs[j] matches Input::Command(
            Command::QueryWindowSize,
        ) ==> outputs(d, inputs)[j] == Output::<I, E>::Action(
            Action::Reply(Reply::WindowSize(Err(EventLoopError::WindowMissing))),
        )),
        !run(d, inputs.take(j)).exited ==> (inputs[j] matches Input::Command(
            Command::CreateSurface { instance },
        ) ==> outputs(d, inputs)[j] == Output::<I, E>::Action(
            Action::Reply(
                Reply::SurfaceRefused { instance, error: EventLoopError::WindowMissing },
            ),
        )),
    decreases j,
{
    if j > 0 {
        law_window_missing(d, inputs, j - 1);
        lemma_run_next(d, inputs, j - 1);
        assert(!reports_window_created(outputs(d, inputs)[j - 1]));
    } else {
        assert(inputs.take(0) =~= Seq::<Input<I, D, W, E>>::empty());
    }
}

/// Platform events are never kept: whatever becomes of a device event or a
/// close request, the driver is afterwards as it was before.
pub proof fn law_events_not_queued<I, D, W, E>(d: DriverView<D, W>, event: PlatformEvent<E>)
    requires
        event is Device || event is CloseRequested,
    ensures
        step(d, Input::<I, D, W, E>::Platform(event)).0 == d,
{
}

/// Once the device sink has been unregistered, device events are dropped
/// until a sink is registered again: none is delivered.
pub proof fn law_unregistered_device_events_dropped<I, D, W, E>(
    d: DriverView<D, W>,
    inputs: Seq<Input<I, D, W, E>>,
    i: int,
    j: int,
)
    requires
        0 <= i < j < inputs.len(),
        inputs[i] matches Input::Command(Command::RegisterDeviceSubscriber { sink: None }),
        forall|k: int| i < k < j ==> !registers_device_sink(#[trigger] inputs[k]),
        inputs[j] matches Input::Platform(PlatformEvent::Device(_)),
    ensures
        run(d, inputs.take(j)).exited || run(d, inputs.take(j)).state.device_event_sink is None,
        outputs(d, inputs)[j] == (if run(d, inputs.take(j)).exited {
            Output::<I, E>::Stopped
        } else {
            Output::<I, E>::Delivery(Delivery::Dropped)
        }),
    decreases j - i,
{
    lemma_run_next(d, inputs, j - 1);
    if i < j - 1 {
        lemma_device_sink_stays_empty(d, inputs, i, j - 1);
        assert(!registers_device_sink(inputs[j - 1]));
    }
}

/// After an unregistration of the device sink, and as long as no sink is
/// registered, the loop has ended or no device sink is there.
pub proof fn lemma_device_sink_stays_empty<I, D, W, E>(
    d: DriverView<D, W>,
    inputs: Seq<Input<I, D, W, E>>,
    i: int,
    j: int,
)
    requires
        0 <= i < j < inputs.len(),
        inputs[i] matches Input::Command(Command::RegisterDeviceSubscriber { sink: None }),
        forall|k: int| i < k < j ==> !registers_device_sink(#[trigger] inputs[k]),
    ensures
        run(d, inputs.take(j)).exited || run(d, inputs.take(j)).state.device_event_sink is None,
    decreases j - i,
{
    lemma_run_next(d, inputs, j - 1);
    if i < j - 1 {
        lemma_device_sink_stays_empty(d, inputs, i, j - 1);
        assert(!registers_device_sink(inputs[j - 1]));
    }
}

/// Once the window sink has been unregistered, close requests are dropped
/// until a sink is registered again: none is delivered.
pub proof fn law_unregistered_window_events_dropped<I, D, W, E>(
    d: DriverView<D, W>,
    inputs: Seq<Input<I, D, W, E>>,
    i: int,
    j: int,
)
    requires
        0 <= i < j < inputs.len(),
        inputs[i] matches Input::Command(Command::RegisterWindowSubscriber { sink: None }),
        forall|k: int| i < k < j ==> !registers_window_sink(#[trigger] inputs[k]),
        inputs[j] matches Input::Platform(PlatformEvent::CloseRequested),
    ensures
        run(d, inputs.take(j)).exited || run(d, inputs.take(j)).state.window_event_sink is None,
        outputs(d, inputs)[j] == (if run(d, inputs.take(j)).exited {
            Output::<I, E>::Stopped
        } else {
            Output::<I, E>::Delivery(Delivery::Dropped)
        }),
{
    lemma_window_sink_stays_empty(d, inputs, i, j);
}

/// After an unregistration of the window sink, and as long as no sink is
/// registered, the loop has ended or no window sink is there.
pub proof fn lemma_window_sink_stays_empty<I, D, W, E>(
    d: DriverView<D, W>,
    inputs: Seq<Input<I, D, W, E>>,
    i: int,
    j: int,
)
    requires
        0 <= i < j < inputs.len(),
        inputs[i] matches Input::Command(Command::RegisterWindowSubscriber { sink: None }),
        forall|k: int| i < k < j ==> !registers_window_sink(#[trigger] inputs[k]),
    ensures
        run(d, inputs.take(j)).exited || run(d, inputs.take(j)).state.window_event_sink is None,
    decreases j - i,
{
    lemma_run_next(d, inputs, j - 1);
    if i < j - 1 {
        lemma_window_sink_stays_empty(d, inputs, i, j - 1);
        assert(!registers_window_sink(inputs[j - 1]));
    }
}

/// The loop runs as long as no exit command has been taken.
pub proof fn lemma_running_before_exit<I, D, W, E>(
    d: DriverView<D, W>,
    inputs: Seq<Input<I, D, W, E>>,
    j: int,
)
    requires
        !d.exited,
        0 <= j <= inputs.len(),
        forall|i: int| 0 <= i < j ==> !is_exit(#[trigger] inputs[i]),
    ensures
        !run(d, inputs.take(j)).exited,
    decreases j,
{
    if j > 0 {
        lemma_running_before_exit(d, inputs, j - 1);
        lemma_run_next(d, inputs, j - 1);
        assert(!is_exit(inputs[j - 1]));
    } else {
        assert(inputs.take(0) =~= Seq::<Input<I, D, W, E>>::empty());
    }
}

/// The first exit command ends the loop, and nothing passes it. Every item
/// before it is processed, in the running loop; the exit itself is answered
/// with the action to leave; no item after it is processed, and the driver
/// stays as the exit has left it.
pub proof fn law_exit_ends_loop<I, D, W, E>(
    d: DriverView<D, W>,
    inputs: Seq<Input<I, D, W, E>>,
    k: int,
    i: int,
)
    requires
        !d.exited,
        0 <= k < inputs.len(),
        is_exit(inputs[k]),
        forall|h: int| 0 <= h < k ==> !is_exit(#[trigger] inputs[h]),
        0 <= i < inputs.len(),
    ensures
        i < k ==> !run(d, inputs.take(i)).exited && !(outputs(d, inputs)[i] is Stopped),
        i == k ==> outputs(d, inputs)[i] == Output::<I, E>::Action(Action::Exit),
        i > k ==> outputs(d, inputs)[i] == Output::<I, E>::Stopped,
        run(d, inputs).exited,
        run(d, inputs).state == run(d, inputs.take(k)).state,
{
    lemma_running_before_exit(d, inputs, k);
    lemma_run_next(d, inputs, k);
    if i < k {
        assert forall|h: int| 0 <= h < i implies !is_exit(#[trigger] inputs[h]) by {}
        lemma_running_before_exit(d, inputs, i);
    } else if i > k {
        lemma_window_and_exit_kept(d, inputs, k + 1, i);
    }
    lemma_window_and_exit_kept(d, inputs, k + 1, inputs.len() as int);
    assert(inputs.take(inputs.len() as int) == inputs);
}

} // verus!

//! The state of the owning thread and its transitions.

use vstd::prelude::*;
use crate::event_loop::command::{
    Action, Command, Delivery, EventLoopError, PlatformEvent, Reply, WindowEvent, WindowHandle,
    WindowSize,
};

verus! {

/// Mathematical model of [`LoopState`].
pub struct LoopView<D, W> {
    pub window: Option<WindowHandle>,
    pub device_event_sink: Option<D>,
    pub window_event_sink: Option<W>,
}

/// The state before anything happened: no window, no subscriber.
pub open spec fn initial_view<D, W>() -> LoopView<D, W> {
    LoopView { window: None, device_event_sink: None, window_event_sink: None }
}

/// The dispatcher's transition: the state after a command and what has to
/// be done for it.
pub open spec fn dispatch_step<I, D, W>(s: LoopView<D, W>, c: Command<I, D, W>) -> (
    LoopView<D, W>,
    Action<I>,
) {
    match c {
        Command::CreateWindow { params } => match s.window {
            Some(_) => (s, Action::Reply(Reply::WindowCreated(Err(EventLoopError::WindowExists)))),
            None => (s, Action::BuildWindow(params)),
        },
        Command::CreateSurface { instance } => match s.window {
            Some(window) => (s, Action::BuildSurface { window, instance }),
            None => (
                s,
                Action::Reply(
                    Reply::SurfaceRefused { instance, error: EventLoopError::WindowMissing },
                ),
            ),
        },
        Command::RegisterDeviceSubscriber { sink } => (
            LoopView { device_event_sink: sink, ..s },
            Action::Idle,
        ),
        Command::RegisterWindowSubscriber { sink } => (
            LoopView { window_event_sink: sink, ..s },
            Action::Idle,
        ),
        Command::QueryWindowSize => match s.window {
            Some(window) => (s, Action::Reply(Reply::WindowSize(Ok(window.size)))),
            None => (s, Action::Reply(Reply::WindowSize(Err(EventLoopError::WindowMissing)))),
        },
        Command::Exit => (s, Action::Exit),
    }
}

/// The transition on the outcome of a window creation: the state after it
/// and the answer owed to the thread that asked for the window.
pub open spec fn window_built_step<D, W>(
    s: LoopView<D, W>,
    outcome: Result<WindowHandle, String>,
) -> (LoopView<D, W>, Result<WindowSize, EventLoopError>) {
    match outcome {
        Err(message) => (s, Err(EventLoopError::PlatformCreationFailed(message))),
        Ok(window) => match s.window {
            Some(_) => (s, Err(EventLoopError::WindowExists)),
            None => (LoopView { window: Some(window), ..s }, Ok(window.size)),
        },
    }
}

/// The transition on a platform event: the state after it and where the
/// event goes. A close request never ends the loop by itself: it goes to the
/// window subscriber, whose business it is what to do about it, and is lost
/// where there is none.
pub open spec fn platform_step<D, W, E>(s: LoopView<D, W>, e: PlatformEvent<E>) -> (
    LoopView<D, W>,
    Delivery<E>,
) {
    match e {
        PlatformEvent::Device(event) => match s.device_event_sink {
            Some(_) => (s, Delivery::Device(event)),
            None => (s, Delivery::Dropped),
        },
        PlatformEvent::CloseRequested => match s.window_event_sink {
            Some(_) => (s, Delivery::Window(WindowEvent::CloseRequested)),
            None => (s, Delivery::Dropped),
        },
        PlatformEvent::Resized(size) => match s.window {
            Some(window) => (
                LoopView { window: Some(WindowHandle { id: window.id, size }), ..s },
                Delivery::Dropped,
            ),
            None => (s, Delivery::Dropped),
        },
        PlatformEvent::Other => (s, Delivery::Dropped),
    }
}

/// What only the owning thread may touch: the one window and the sinks that
/// are registered at the moment.
pub struct LoopState<D, W> {
    window: Option<WindowHandle>,
    device_event_sink: Option<D>,
    window_event_sink: Option<W>,
}

impl<D, W> View for LoopState<D, W> {
    type V = LoopView<D, W>;

    closed spec fn view(&self) -> LoopView<D, W> {
        LoopView {
            window: self.window,
            device_event_sink: self.device_event_sink,
            window_event_sink: self.window_event_sink,
        }
    }
}

impl<D, W> LoopState<D, W> {
    /// The state in which the loop starts.
    pub fn new() -> (state: Self)
        ensures
            state@ == initial_view::<D, W>(),
    {
        LoopState { window: None, device_event_sink: None, window_event_sink: None }
    }

    /// The window, once one has been created.
    pub fn window(&self) -> (window: Option<WindowHandle>)
        ensures
            window == self@.window,
    {
        self.window
    }

    /// The sink that device events are written into, if one is registered.
    pub fn device_event_sink(&self) -> (sink: Option<&D>)
        ensures
            sink.is_some() == self@.device_event_sink.is_some(),
            sink matches Some(d) ==> *d == self@.device_event_sink.unwrap(),
    {
        self.device_event_sink.as_ref()
    }

    /// The sink that window events are written into, if one is registered.
    pub fn window_event_sink(&self) -> (sink: Option<&W>)
        ensures
            sink.is_some() == self@.window_event_sink.is_some(),
            sink matches Some(w) ==> *w == self@.window_event_sink.unwrap(),
    {
        self.window_event_sink.as_ref()
    }

    /// Processes one command. A command that carries a reply gets exactly
    /// one: either the action is that reply, or it is the platform work after
    /// which the reply is due.
    pub fn dispatch<I>(&mut self, command: Command<I, D, W>) -> (action: Action<I>)
        ensures
            (final(self)@, action) == dispatch_step(old(self)@, command),
    {
        match command {
            Command::CreateWindow { params } => {
                if self.window.is_some() {
                    Action::Reply(Reply::WindowCreated(Err(EventLoopError::WindowExists)))
                } else {
                    Action::BuildWindow(params)
                }
            },
            Command::CreateSurface { instance } => {
                match self.window {
                    Some(window) => Action::BuildSurface { window, instance },
                    None => Action::Reply(
                        Reply::SurfaceRefused { instance, error: EventLoopError::WindowMissing },
                    ),
                }
            },
            Command::RegisterDeviceSubscriber { sink } => {
                self.device_event_sink = sink;
                Action::Idle
            },
            Command::RegisterWindowSubscriber { sink } => {
                self.window_event_sink = sink;
                Action::Idle
            },
            Command::QueryWindowSize => {
                match self.window {
                    Some(window) => Action::Reply(Reply::WindowSize(Ok(window.size))),
                    None => Action::Reply(Reply::WindowSize(Err(EventLoopError::WindowMissing))),
                }
            },
            Command::Exit => Action::Exit,
        }
    }

    /// Takes in the outcome of the window creation that a
    /// [`Action::BuildWindow`] asked for, and gives the answer to the
    /// requester. The window is stored only if none is there yet.
    pub fn window_built(&mut self, outcome: Result<WindowHandle, String>) -> (answer: Result<
        WindowSize,
        EventLoopError,
    >)
        ensures
            (final(self)@, answer) == window_built_step(old(self)@, outcome),
    {
        match outcome {
            Err(message) => Err(EventLoopError::PlatformCreationFailed(message)),
            Ok(window) => {
                if self.window.is_some() {
                    Err(EventLoopError::WindowExists)
                } else {
                    self.window = Some(window);
                    Ok(window.size)
                }
            },
        }
    }

    /// Decides where a platform event goes. Events are never kept: one that
    /// finds no subscriber is lost.
    pub fn platform_event<E>(&mut self, event: PlatformEvent<E>) -> (delivery: Delivery<E>)
        ensures
            (final(self)@, delivery) == platform_step(old(self)@, event),
    {
        match event {
            PlatformEvent::Device(event) => {
                if self.device_event_sink.is_some() {
                    Delivery::Device(event)
                } else {
                    Delivery::Dropped
                }
            },
            PlatformEvent::CloseRequested => {
                if self.window_event_sink.is_some() {
                    Delivery::Window(WindowEvent::CloseRequested)
                } else {
                    Delivery::Dropped
                }
            },
            PlatformEvent::Resized(size) => {
                match self.window {
                    Some(window) => {
                        self.window = Some(WindowHandle { id: window.id, size });
                        Delivery::Dropped
                    },
                    None => Delivery::Dropped,
                }
            },
            PlatformEvent::Other => Delivery::Dropped,
        }
    }
}

} // verus!

//! The values that cross the bus: requests, their replies, and the events
//! republished to subscribers.

use vstd::prelude::*;

verus! {

/// Extent of a window's drawable area.
#[derive(Clone, Copy, Debug, PartialEq, Eq, Structural)]
pub struct WindowSize {
    pub width: u32,
    pub height: u32,
}

/// What a worker asks for when it wants the window created.
#[derive(Clone, Debug, PartialEq, Eq)]
pub struct WindowParams {
    pub title: String,
    pub size: WindowSize,
}

/// What the owning thread knows of the window it has created: the token by
/// which the platform layer finds the real window again, and its current
/// drawable size.
#[derive(Clone, Copy, Debug, PartialEq, Eq, Structural)]
pub struct WindowHandle {
    pub id: u64,
    pub size: WindowSize,
}

/// Why a request was turned down.
#[derive(Clone, Debug, PartialEq, Eq)]
pub enum EventLoopError {
    /// A window was already created.
    WindowExists,
    /// No window exists to perform the operation on.
    WindowMissing,
    /// The platform failed to create the window; its message is kept as is.
    PlatformCreationFailed(String),
}

/// A raw input notification of one device, republished to the device
/// subscriber as the platform delivered it.
#[derive(Clone, Copy, Debug, PartialEq, Eq)]
pub struct DeviceEvent<Id, Ev> {
    pub device_id: Id,
    pub event: Ev,
}

/// A window lifecycle notification, republished to the window subscriber.
#[derive(Clone, Copy, Debug, PartialEq, Eq, Structural)]
pub enum WindowEvent {
    CloseRequested,
}

/// A request of a worker thread to the owning thread.
#[derive(Debug)]
#[allow(inconsistent_fields)]
pub enum Command<I, D, W> {
    /// Create the one window. Answered with [`Reply::WindowCreated`].
    CreateWindow { params: WindowParams },
    /// Bind a rendering surface to the window. The instance is lent to the
    /// owning thread and handed back with the answer.
    CreateSurface { instance: I },
    /// Replace the sink for device events; `None` unregisters. Not answered.
    RegisterDeviceSubscriber { sink: Option<D> },
    /// Replace the sink for window events; `None` unregisters. Not answered.
    RegisterWindowSubscriber { sink: Option<W> },
    /// Ask for the window's current size. Answered with [`Reply::WindowSize`].
    QueryWindowSize,
    /// End the loop. Not answered.
    Exit,
}

/// What the platform tells the owning thread.
#[derive(Debug)]
pub enum PlatformEvent<E> {
    /// Raw input of a device.
    Device(E),
    /// The user asked to close the window.
    CloseRequested,
    /// The window's drawable area changed.
    Resized(WindowSize),
    /// Anything else (redraw and lifecycle notifications).
    Other,
}

/// The answer to a command that carries a reply channel.
#[derive(Debug, PartialEq, Eq)]
pub enum Reply<I> {
    /// Answer to [`Command::CreateWindow`].
    WindowCreated(Result<WindowSize, EventLoopError>),
    /// Answer to a [`Command::CreateSurface`] that cannot be served; the
    /// instance goes back to its owner.
    SurfaceRefused { instance: I, error: EventLoopError },
    /// Answer to [`Command::QueryWindowSize`].
    WindowSize(Result<WindowSize, EventLoopError>),
}

/// What the owning thread has to do after a command.
#[derive(Debug, PartialEq, Eq)]
pub enum Action<I> {
    /// Nothing; the command is not answered.
    Idle,
    /// Send the reply to the thread that issued the command.
    Reply(Reply<I>),
    /// Create the platform window from the parameters, then report the
    /// outcome; the reply follows from that report.
    BuildWindow(WindowParams),
    /// Bind a surface of the instance to the window and send both to the
    /// thread that issued the command.
    BuildSurface { window: WindowHandle, instance: I },
    /// Leave the loop.
    Exit,
}

/// What becomes of a platform event.
#[derive(Debug, PartialEq, Eq)]
pub enum Delivery<E> {
    /// Nobody is subscribed, or the event is of no forwarded category.
    Dropped,
    /// Write the event into the registered device sink.
    Device(E),
    /// Write the event into the registered window sink.
    Window(WindowEvent),
}

} // verus!

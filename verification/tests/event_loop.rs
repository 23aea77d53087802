use std::sync::mpsc;

use yamc::event_loop::command::{
    Action, Command, Delivery, DeviceEvent, EventLoopError, PlatformEvent, Reply, WindowEvent,
    WindowHandle, WindowParams, WindowSize,
};
use yamc::event_loop::driver::{Input, LoopDriver, Output};
use yamc::event_loop::state::LoopState;

#[derive(Clone, Copy, Debug, PartialEq, Eq)]
enum RawInput {
    Key { scancode: u32, pressed: bool },
    Motion { axis: u32, value: i64 },
}

type Device = DeviceEvent<u32, RawInput>;
type DeviceSink = mpsc::Sender<Device>;
type WindowSink = mpsc::Sender<WindowEvent>;

type TokenInput = Input<u8, u32, u32, u64>;
type TokenOutput = Output<u8, u64>;
type TokenDriver = LoopDriver<u32, u32>;

type ChannelInput = Input<u8, DeviceSink, WindowSink, Device>;
type ChannelOutput = Output<u8, Device>;
type ChannelDriver = LoopDriver<DeviceSink, WindowSink>;

fn params() -> WindowParams {
    WindowParams {
        title: String::from("Yet Another Voxel Game"),
        size: WindowSize { width: 1024, height: 768 },
    }
}

fn handle() -> WindowHandle {
    WindowHandle { id: 1, size: WindowSize { width: 1024, height: 768 } }
}

fn reply(reply: Reply<u8>) -> TokenOutput {
    TokenOutput::Action(Action::Reply(reply))
}

fn window_exists() -> TokenOutput {
    reply(Reply::WindowCreated(Err(EventLoopError::WindowExists)))
}

fn key_press() -> Device {
    DeviceEvent { device_id: 3, event: RawInput::Key { scancode: 1, pressed: true } }
}

fn driver_with_window() -> TokenDriver {
    let mut driver = TokenDriver::new();
    driver.feed(TokenInput::Command(Command::CreateWindow { params: params() }));
    driver.feed(TokenInput::WindowBuilt(Ok(handle())));
    driver
}

#[test]
fn created_window_reports_its_size() {
    let mut driver = TokenDriver::new();
    let asked = driver.feed(TokenInput::Command(Command::CreateWindow { params: params() }));
    assert_eq!(asked, TokenOutput::Action(Action::BuildWindow(params())));
    let built = driver.feed(TokenInput::WindowBuilt(Ok(handle())));
    assert_eq!(built, reply(Reply::WindowCreated(Ok(WindowSize { width: 1024, height: 768 }))));
    let size = driver.feed(TokenInput::Command(Command::QueryWindowSize));
    assert_eq!(size, reply(Reply::WindowSize(Ok(WindowSize { width: 1024, height: 768 }))));
}

#[test]
fn second_window_is_refused() {
    let mut driver = driver_with_window();
    let again = driver.feed(TokenInput::Command(Command::CreateWindow { params: params() }));
    assert_eq!(again, window_exists());
    assert_eq!(driver.state().window(), Some(handle()));
}

#[test]
fn device_event_reaches_subscriber_verbatim() {
    let (sender, receiver) = mpsc::channel();
    let mut driver = ChannelDriver::new();
    let registered = driver
        .feed(ChannelInput::Command(Command::RegisterDeviceSubscriber { sink: Some(sender) }));
    assert_eq!(registered, ChannelOutput::Action(Action::Idle));
    let output = driver.feed(ChannelInput::Platform(PlatformEvent::Device(key_press())));
    match output {
        Output::Delivery(Delivery::Device(event)) => {
            driver.state().device_event_sink().unwrap().send(event).unwrap()
        }
        other => panic!("the event was not delivered: {:?}", other),
    }
    assert_eq!(receiver.try_recv(), Ok(key_press()));
    assert!(receiver.try_recv().is_err());
}

#[test]
fn unregistered_window_subscriber_receives_nothing() {
    let (sender, receiver) = mpsc::channel();
    let mut driver = ChannelDriver::new();
    driver.feed(ChannelInput::Command(Command::RegisterWindowSubscriber { sink: Some(sender) }));
    driver.feed(ChannelInput::Command(Command::RegisterWindowSubscriber { sink: None }));
    let output = driver.feed(ChannelInput::Platform(PlatformEvent::CloseRequested));
    assert_eq!(output, ChannelOutput::Delivery(Delivery::Dropped));
    assert!(driver.state().window_event_sink().is_none());
    assert!(receiver.try_recv().is_err());
}

#[test]
fn exit_without_window_ends_loop() {
    let mut driver = TokenDriver::new();
    assert!(!driver.has_exited());
    let output = driver.feed(TokenInput::Command(Command::Exit));
    assert_eq!(output, TokenOutput::Action(Action::Exit));
    assert!(driver.has_exited());
    assert_eq!(driver.state().window(), None);
}

#[test]
fn at_most_one_window_creation_succeeds() {
    let second = WindowHandle { id: 2, size: WindowSize { width: 640, height: 480 } };
    let inputs = vec![
        TokenInput::Command(Command::CreateWindow { params: params() }),
        TokenInput::Command(Command::CreateWindow { params: params() }),
        TokenInput::WindowBuilt(Ok(handle())),
        TokenInput::WindowBuilt(Ok(second)),
        TokenInput::Command(Command::CreateWindow { params: params() }),
        TokenInput::Platform(PlatformEvent::Other),
        TokenInput::Command(Command::CreateWindow { params: params() }),
    ];
    let mut driver = TokenDriver::new();
    let outputs = driver.feed_all(inputs);
    let created = reply(Reply::WindowCreated(Ok(WindowSize { width: 1024, height: 768 })));
    assert_eq!(
        outputs,
        vec![
            TokenOutput::Action(Action::BuildWindow(params())),
            TokenOutput::Action(Action::BuildWindow(params())),
            created,
            window_exists(),
            window_exists(),
            TokenOutput::Delivery(Delivery::Dropped),
            window_exists(),
        ]
    );
    assert_eq!(driver.state().window(), Some(handle()));
}

#[test]
fn requests_before_the_window_find_it_missing() {
    let mut driver = TokenDriver::new();
    let size = driver.feed(TokenInput::Command(Command::QueryWindowSize));
    assert_eq!(size, reply(Reply::WindowSize(Err(EventLoopError::WindowMissing))));
    let surface = driver.feed(TokenInput::Command(Command::CreateSurface { instance: 42 }));
    assert_eq!(
        surface,
        reply(Reply::SurfaceRefused { instance: 42, error: EventLoopError::WindowMissing })
    );
    driver.feed(TokenInput::Command(Command::CreateWindow { params: params() }));
    let still = driver.feed(TokenInput::Command(Command::QueryWindowSize));
    assert_eq!(still, reply(Reply::WindowSize(Err(EventLoopError::WindowMissing))));
}

#[test]
fn failed_creation_leaves_no_window() {
    let mut driver = TokenDriver::new();
    driver.feed(TokenInput::Command(Command::CreateWindow { params: params() }));
    let failed = driver.feed(TokenInput::WindowBuilt(Err(String::from("no display"))));
    assert_eq!(
        failed,
        reply(Reply::WindowCreated(Err(EventLoopError::PlatformCreationFailed(String::from(
            "no display"
        )))))
    );
    assert_eq!(driver.state().window(), None);
    let retry = driver.feed(TokenInput::Command(Command::CreateWindow { params: params() }));
    assert_eq!(retry, TokenOutput::Action(Action::BuildWindow(params())));
    let built = driver.feed(TokenInput::WindowBuilt(Ok(handle())));
    assert_eq!(built, reply(Reply::WindowCreated(Ok(WindowSize { width: 1024, height: 768 }))));
}

#[test]
fn surface_is_bound_to_the_window() {
    let mut driver = driver_with_window();
    let output = driver.feed(TokenInput::Command(Command::CreateSurface { instance: 9 }));
    assert_eq!(output, TokenOutput::Action(Action::BuildSurface { window: handle(), instance: 9 }));
}

#[test]
fn events_after_unregistering_are_dropped_not_queued() {
    let (first, first_receiver) = mpsc::channel();
    let (second, second_receiver) = mpsc::channel();
    let mut driver = ChannelDriver::new();
    driver.feed(ChannelInput::Command(Command::RegisterDeviceSubscriber { sink: Some(first) }));
    driver.feed(ChannelInput::Command(Command::RegisterDeviceSubscriber { sink: None }));
    for _ in 0..3 {
        let output = driver.feed(ChannelInput::Platform(PlatformEvent::Device(key_press())));
        assert_eq!(output, ChannelOutput::Delivery(Delivery::Dropped));
    }
    driver.feed(ChannelInput::Command(Command::RegisterDeviceSubscriber { sink: Some(second) }));
    let motion = DeviceEvent { device_id: 4, event: RawInput::Motion { axis: 0, value: -7 } };
    let output = driver.feed(ChannelInput::Platform(PlatformEvent::Device(motion)));
    assert_eq!(output, ChannelOutput::Delivery(Delivery::Device(motion)));
    driver.state().device_event_sink().unwrap().send(motion).unwrap();
    assert!(first_receiver.try_recv().is_err());
    assert_eq!(second_receiver.try_recv(), Ok(motion));
    assert!(second_receiver.try_recv().is_err());
}

#[test]
fn registration_replaces_the_sink() {
    let mut driver = TokenDriver::new();
    driver.feed(TokenInput::Command(Command::RegisterDeviceSubscriber { sink: Some(10) }));
    driver.feed(TokenInput::Command(Command::RegisterWindowSubscriber { sink: Some(20) }));
    assert_eq!(driver.state().device_event_sink(), Some(&10));
    assert_eq!(driver.state().window_event_sink(), Some(&20));
    driver.feed(TokenInput::Command(Command::RegisterDeviceSubscriber { sink: Some(11) }));
    assert_eq!(driver.state().device_event_sink(), Some(&11));
    assert_eq!(driver.state().window_event_sink(), Some(&20));
}

#[test]
fn close_request_is_forwarded_to_the_subscriber() {
    let mut driver = TokenDriver::new();
    let unheard = driver.feed(TokenInput::Platform(PlatformEvent::CloseRequested));
    assert_eq!(unheard, TokenOutput::Delivery(Delivery::Dropped));
    assert!(!driver.has_exited());
    driver.feed(TokenInput::Command(Command::RegisterWindowSubscriber { sink: Some(20) }));
    let heard = driver.feed(TokenInput::Platform(PlatformEvent::CloseRequested));
    assert_eq!(heard, TokenOutput::Delivery(Delivery::Window(WindowEvent::CloseRequested)));
    assert!(!driver.has_exited());
}

#[test]
fn other_platform_events_are_dropped() {
    let mut driver = TokenDriver::new();
    driver.feed(TokenInput::Command(Command::RegisterDeviceSubscriber { sink: Some(10) }));
    driver.feed(TokenInput::Command(Command::RegisterWindowSubscriber { sink: Some(20) }));
    let output = driver.feed(TokenInput::Platform(PlatformEvent::Other));
    assert_eq!(output, TokenOutput::Delivery(Delivery::Dropped));
}

#[test]
fn resize_changes_the_reported_size() {
    let mut driver = TokenDriver::new();
    let resized = WindowSize { width: 800, height: 600 };
    let early = driver.feed(TokenInput::Platform(PlatformEvent::Resized(resized)));
    assert_eq!(early, TokenOutput::Delivery(Delivery::Dropped));
    assert_eq!(driver.state().window(), None);
    let mut driver = driver_with_window();
    driver.feed(TokenInput::Platform(PlatformEvent::Resized(resized)));
    assert_eq!(driver.state().window(), Some(WindowHandle { id: 1, size: resized }));
    let size = driver.feed(TokenInput::Command(Command::QueryWindowSize));
    assert_eq!(size, reply(Reply::WindowSize(Ok(resized))));
}

#[test]
fn stream_is_processed_in_order() {
    let make = || {
        vec![
            TokenInput::Command(Command::QueryWindowSize),
            TokenInput::Command(Command::RegisterDeviceSubscriber { sink: Some(10) }),
            TokenInput::Platform(PlatformEvent::Device(5)),
            TokenInput::WindowBuilt(Ok(handle())),
            TokenInput::Command(Command::RegisterDeviceSubscriber { sink: None }),
            TokenInput::Platform(PlatformEvent::Device(6)),
            TokenInput::Command(Command::QueryWindowSize),
        ]
    };
    let mut batch = TokenDriver::new();
    let outputs = batch.feed_all(make());
    let mut single = TokenDriver::new();
    let one_by_one: Vec<TokenOutput> = make().into_iter().map(|input| single.feed(input)).collect();
    assert_eq!(outputs, one_by_one);
    assert_eq!(
        outputs,
        vec![
            reply(Reply::WindowSize(Err(EventLoopError::WindowMissing))),
            TokenOutput::Action(Action::Idle),
            TokenOutput::Delivery(Delivery::Device(5)),
            reply(Reply::WindowCreated(Ok(WindowSize { width: 1024, height: 768 }))),
            TokenOutput::Action(Action::Idle),
            TokenOutput::Delivery(Delivery::Dropped),
            reply(Reply::WindowSize(Ok(WindowSize { width: 1024, height: 768 }))),
        ]
    );
}

#[test]
fn nothing_passes_exit() {
    let inputs = vec![
        TokenInput::Command(Command::RegisterWindowSubscriber { sink: Some(20) }),
        TokenInput::WindowBuilt(Ok(handle())),
        TokenInput::Command(Command::Exit),
        TokenInput::Command(Command::RegisterWindowSubscriber { sink: None }),
        TokenInput::Command(Command::QueryWindowSize),
        TokenInput::Platform(PlatformEvent::CloseRequested),
        TokenInput::Command(Command::Exit),
    ];
    let mut driver = TokenDriver::new();
    let outputs = driver.feed_all(inputs);
    assert_eq!(
        outputs,
        vec![
            TokenOutput::Action(Action::Idle),
            reply(Reply::WindowCreated(Ok(WindowSize { width: 1024, height: 768 }))),
            TokenOutput::Action(Action::Exit),
            TokenOutput::Stopped,
            TokenOutput::Stopped,
            TokenOutput::Stopped,
            TokenOutput::Stopped,
        ]
    );
    assert!(driver.has_exited());
    assert_eq!(driver.state().window_event_sink(), Some(&20));
    assert_eq!(driver.state().window(), Some(handle()));
}

#[test]
fn empty_stream_changes_nothing() {
    let mut driver = TokenDriver::new();
    let outputs: Vec<TokenOutput> = driver.feed_all(Vec::<TokenInput>::new());
    assert!(outputs.is_empty());
    assert!(!driver.has_exited());
    assert_eq!(driver.state().window(), None);
}

#[test]
fn dispatcher_answers_each_command() {
    let mut state: LoopState<u32, u32> = LoopState::new();
    assert_eq!(state.window(), None);
    assert_eq!(state.device_event_sink(), None);
    assert_eq!(state.window_event_sink(), None);
    let build: Action<u8> = state.dispatch(Command::CreateWindow { params: params() });
    assert_eq!(build, Action::BuildWindow(params()));
    assert_eq!(state.window_built(Ok(handle())), Ok(WindowSize { width: 1024, height: 768 }));
    assert_eq!(state.window_built(Ok(handle())), Err(EventLoopError::WindowExists));
    assert_eq!(
        state.window_built(Err(String::from("later"))),
        Err(EventLoopError::PlatformCreationFailed(String::from("later")))
    );
    let exit: Action<u8> = state.dispatch(Command::Exit);
    assert_eq!(exit, Action::Exit);
    let delivery: Delivery<u64> = state.platform_event(PlatformEvent::Device(1));
    assert_eq!(delivery, Delivery::Dropped);
}
